use vstd::prelude::*;
use crate::image::Kernel;
use crate::image::Scale;

verus! {

/// The keys the bridge can attach an optional value under. The shell
/// maps each key to the nul-terminated name string the native keyed
/// argument parser expects; keeping the set closed rules out duplicate
/// keys, which the native parser does not tolerate.
#[derive(Clone, Copy, PartialEq, Eq, Debug)]
pub enum ArgKey {
    /// The vertical scale factor of a resize.
    VScale,
    /// The resampling kernel of a resize.
    ResampleKernel,
}

/// A value the bridge can place in a native argument list. The shell
/// lowers each variant to the native representation (a ratio becomes
/// the native floating scale value, a kernel its native enum member).
#[derive(Clone, Copy, PartialEq, Eq, Debug)]
pub enum ArgValue {
    /// A plain integer argument.
    Int(i32),
    /// An exact scale ratio.
    Ratio(Scale),
    /// A resampling kernel.
    Resample(Kernel),
}

/// One optional keyed argument: included in the call as a (key, value)
/// pair when the value is present, omitted entirely when it is absent,
/// independently of every other optional argument.
#[derive(Clone, Copy, PartialEq, Eq, Debug)]
pub struct OptArg {
    pub key: ArgKey,
    pub value: Option<ArgValue>,
}

/// One token of the assembled native argument list, in call order.
#[derive(Clone, Copy, PartialEq, Eq, Debug)]
pub enum CallArg {
    /// A value token: a required argument, or the value of a pair.
    Value(ArgValue),
    /// The key naming the value token that follows it.
    Key(ArgKey),
    /// The nul sentinel that terminates the native argument list.
    Terminator,
}

/// The tokens one optional argument contributes: its (key, value) pair
/// when present, nothing when absent.
pub open spec fn pair_tokens(o: OptArg) -> Seq<CallArg> {
    match o.value {
        Some(v) => seq![CallArg::Key(o.key), CallArg::Value(v)],
        None => Seq::empty(),
    }
}

/// The tokens a whole sequence of optional arguments contributes, in
/// declared order.
pub open spec fn optional_tokens(opts: Seq<OptArg>) -> Seq<CallArg>
    decreases opts.len(),
{
    if opts.len() == 0 {
        Seq::empty()
    } else {
        optional_tokens(opts.drop_last()) + pair_tokens(opts.last())
    }
}

/// The complete native argument list: every required argument in
/// declared order, then the pair of each present optional argument in
/// declared order, then the terminating sentinel.
pub open spec fn call_tokens(required: Seq<ArgValue>, opts: Seq<OptArg>) -> Seq<CallArg> {
    required.map_values(|v: ArgValue| CallArg::Value(v)) + optional_tokens(opts) + seq![
        CallArg::Terminator,
    ]
}

/// Assembles the argument list of one keyed-varargs native call out of
/// its required prefix and its optional arguments, omitting every
/// absent pair. The shell replays the result positionally into the
/// native call, which consumes a genuinely variable-length list.
pub fn build_call_args(required: &Vec<ArgValue>, optional: &Vec<OptArg>) -> (r: Vec<CallArg>)
    ensures
        r@ == call_tokens(required@, optional@),
{
    let mut out: Vec<CallArg> = Vec::new();
    let mut i: usize = 0;
    while i < required.len()
        invariant
            i <= required@.len(),
            out@ == required@.subrange(0, i as int).map_values(|v: ArgValue| CallArg::Value(v)),
        decreases required@.len() - i,
    {
        proof {
            assert(required@.subrange(0, i as int + 1).drop_last() =~= required@.subrange(
                0,
                i as int,
            ));
            assert(required@.subrange(0, i as int + 1).map_values(
                |v: ArgValue| CallArg::Value(v),
            ) =~= required@.subrange(0, i as int).map_values(|v: ArgValue| CallArg::Value(v)).push(
                CallArg::Value(required@[i as int]),
            ));
        }
        out.push(CallArg::Value(required[i]));
        i = i + 1;
    }
    proof {
        assert(required@.subrange(0, required@.len() as int) =~= required@);
    }
    let mut j: usize = 0;
    while j < optional.len()
        invariant
            j <= optional@.len(),
            out@ == required@.map_values(|v: ArgValue| CallArg::Value(v)) + optional_tokens(
                optional@.subrange(0, j as int),
            ),
        decreases optional@.len() - j,
    {
        proof {
            assert(optional@.subrange(0, j as int + 1).drop_last() =~= optional@.subrange(
                0,
                j as int,
            ));
            assert(optional@.subrange(0, j as int + 1).last() == optional@[j as int]);
        }
        let o = optional[j];
        match o.value {
            Some(v) => {
                out.push(CallArg::Key(o.key));
                out.push(CallArg::Value(v));
            },
            None => {},
        }
        j = j + 1;
    }
    proof {
        assert(optional@.subrange(0, optional@.len() as int) =~= optional@);
    }
    out.push(CallArg::Terminator);
    proof {
        assert(out@ =~= call_tokens(required@, optional@));
    }
    out
}

} // verus!
