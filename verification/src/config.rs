use vstd::prelude::*;
use vstd::string::StringExecFns;

verus! {

/// The one run-time setting: the TCP address the server binds and listens on.
pub struct Configuration {
    pub bind: String,
}

/// The address used when none is supplied on the command line.
pub open spec fn default_bind_addr() -> Seq<char> {
    "127.0.0.1:5800"@
}

/// The executable counterpart of `default_bind_addr`.
pub fn default_bind() -> (r: String)
    ensures
        r@ == default_bind_addr(),
{
    String::from_str("127.0.0.1:5800")
}

/// Builds the configuration: the given address when one was supplied,
/// otherwise the default.
pub fn bind_or_default(bind: Option<String>) -> (r: Configuration)
    ensures
        bind is Some ==> r.bind@ == bind->0@,
        bind is None ==> r.bind@ == default_bind_addr(),
{
    match bind {
        Some(b) => Configuration { bind: b },
        None => Configuration { bind: default_bind() },
    }
}

} // verus!
