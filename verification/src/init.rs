use vstd::prelude::*;
use crate::error::Error;
use crate::text::find_nul;
use crate::text::first_nul_at;
use crate::text::nul_free;
use crate::text::utf8_bytes;
use vstd::utf8::is_ascii_chars;
use vstd::utf8::is_ascii_chars_encode_utf8;

verus! {

/// Options for the one-time native initialization: a program name
/// (defaulting to the fixed literal `"rips"`) and a leak-check toggle
/// (defaulting to whatever the native library does by itself). Options
/// take effect only if they reach the run-once guard before any
/// image-constructing operation triggers it implicitly: the guard is
/// single-shot for the process, and later calls change nothing.
pub struct InitOptions {
    name: Option<String>,
    leak_checks_on: Option<bool>,
}

impl InitOptions {
    /// The requested program name, if one was set.
    pub closed spec fn name_opt(&self) -> Option<String> {
        self.name
    }

    /// The requested leak-check toggle, if one was set.
    pub closed spec fn leak_opt(&self) -> Option<bool> {
        self.leak_checks_on
    }

    /// Sets the program name the native library is initialized under.
    pub fn with_name(self, name: String) -> (r: Self)
        ensures
            r.name_opt() == Some(name),
            r.leak_opt() == self.leak_opt(),
    {
        InitOptions { name: Some(name), leak_checks_on: self.leak_checks_on }
    }

    /// Sets whether native leak checking is switched on at initialization.
    pub fn with_leak_checks(self, on: bool) -> (r: Self)
        ensures
            r.leak_opt() == Some(on),
            r.name_opt() == self.name_opt(),
    {
        InitOptions { name: self.name, leak_checks_on: Some(on) }
    }
}

impl Default for InitOptions {
    fn default() -> (r: Self)
        ensures
            r.name_opt() == Option::<String>::None,
            r.leak_opt() == Option::<bool>::None,
    {
        InitOptions { name: None, leak_checks_on: None }
    }
}

/// What the single native initialization call should do: the program
/// name to register (its bytes free of embedded nuls, ready to become a
/// C string), and the leak-check toggle to apply afterwards, if any.
#[derive(Debug)]
pub struct InitPlan {
    pub name: String,
    pub leak_checks_on: Option<bool>,
}

/// The name an `Option`-wrapped set of options asks for, if any.
pub open spec fn requested_name(opts: Option<InitOptions>) -> Option<String> {
    match opts {
        Some(o) => o.name_opt(),
        None => None,
    }
}

/// The leak-check toggle an `Option`-wrapped set of options asks for.
pub open spec fn requested_leak(opts: Option<InitOptions>) -> Option<bool> {
    match opts {
        Some(o) => o.leak_opt(),
        None => None,
    }
}

/// How option resolution must come out: the plan carries the requested
/// leak toggle and the requested name (or the default literal), and the
/// only failure is an embedded nul in a requested name, reported with
/// the position of its first nul byte.
pub open spec fn resolves(
    name_opt: Option<String>,
    leak_opt: Option<bool>,
    r: Result<InitPlan, Error>,
) -> bool {
    match r {
        Ok(plan) => {
            &&& plan.leak_checks_on == leak_opt
            &&& nul_free(utf8_bytes(plan.name@))
            &&& match name_opt {
                Some(n) => plan.name@ == n@,
                None => plan.name@ == "rips"@,
            }
        },
        Err(e) => match name_opt {
            Some(n) => {
                &&& !nul_free(utf8_bytes(n@))
                &&& e matches Error::NulError(p) && first_nul_at(utf8_bytes(n@), p as int)
            },
            None => false,
        },
    }
}

/// The default program name embeds no nul byte, so its conversion to a
/// C string always succeeds.
pub proof fn lemma_default_name_nul_free()
    ensures
        nul_free(utf8_bytes("rips"@)),
{
    reveal_strlit("rips");
    assert(is_ascii_chars("rips"@));
    is_ascii_chars_encode_utf8("rips"@);
    assert forall|i: int| 0 <= i < utf8_bytes("rips"@).len() implies utf8_bytes("rips"@)[i]
        != 0u8 by {
        assert("rips"@[i] as u8 == vstd::utf8::encode_utf8("rips"@)[i]);
    }
}

/// Resolves initialization options into the plan for the one native
/// initialization: explicit options if given, defaults otherwise. A
/// requested name with an embedded nul is rejected here, before any
/// native call, and surfaced to the caller that triggered initialization.
pub fn initialize_with_maybe_options(opts: Option<InitOptions>) -> (r: Result<InitPlan, Error>)
    ensures
        resolves(requested_name(opts), requested_leak(opts), r),
{
    let o = match opts {
        Some(o) => o,
        None => InitOptions::default(),
    };
    let InitOptions { name, leak_checks_on } = o;
    match name {
        Some(n) => {
            match find_nul(n.as_str().as_bytes()) {
                Some(p) => Err(Error::NulError(p)),
                None => Ok(InitPlan { name: n, leak_checks_on }),
            }
        },
        None => {
            proof {
                lemma_default_name_nul_free();
            }
            Ok(InitPlan { name: "rips".to_owned(), leak_checks_on })
        },
    }
}

/// Resolves explicit initialization options. Idempotence is the guard's
/// business ([`InitGuard`]): this call describes what the first winning
/// initialization does with these options.
pub fn initialize_with_options(opts: InitOptions) -> (r: Result<InitPlan, Error>)
    ensures
        resolves(opts.name_opt(), opts.leak_opt(), r),
{
    initialize_with_maybe_options(Some(opts))
}

/// The default initialization plan, used when an image-constructing
/// operation triggers initialization implicitly: the fixed program name
/// and no leak-check change. It cannot fail.
pub fn initialize() -> (r: InitPlan)
    ensures
        r.name@ == "rips"@,
        nul_free(utf8_bytes(r.name@)),
        r.leak_checks_on == Option::<bool>::None,
{
    proof {
        lemma_default_name_nul_free();
    }
    InitPlan { name: "rips".to_owned(), leak_checks_on: None }
}

/// The process-wide run-once initialization state, modelled as a value.
/// The shell around this crate holds exactly one of these behind its
/// blocking once-primitive, so concurrent first uses are serialized and
/// every call steps this state exactly once.
pub struct InitGuard {
    initialized: bool,
}

impl InitGuard {
    /// Whether the winning initialization has already run.
    pub closed spec fn is_initialized(&self) -> bool {
        self.initialized
    }

    /// The state before any initialization has run.
    pub fn new() -> (g: InitGuard)
        ensures
            !g.is_initialized(),
    {
        InitGuard { initialized: false }
    }

    /// One call arriving at the guard. The first successful call wins and
    /// yields the plan for the one native initialization; every later
    /// call, whatever options it carries, performs nothing. A failed
    /// first call (embedded nul in the name) leaves the guard open.
    pub fn enter(&mut self, opts: Option<InitOptions>) -> (r: Result<Option<InitPlan>, Error>)
        ensures
            old(self).is_initialized() ==> final(self).is_initialized() && (r matches Ok(p)
                && p is None),
            !old(self).is_initialized() ==> match r {
                Ok(p) => final(self).is_initialized() && (p matches Some(plan) && resolves(
                    requested_name(opts),
                    requested_leak(opts),
                    Ok(plan),
                )),
                Err(e) => !final(self).is_initialized() && resolves(
                    requested_name(opts),
                    requested_leak(opts),
                    Err(e),
                ),
            },
    {
        if self.initialized {
            Ok(None)
        } else {
            match initialize_with_maybe_options(opts) {
                Ok(plan) => {
                    self.initialized = true;
                    Ok(Some(plan))
                },
                Err(e) => Err(e),
            }
        }
    }
}

} // verus!
