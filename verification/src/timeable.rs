//! Naming of the metric under which the duration of tasks is recorded.

use vstd::prelude::*;
use vstd::string::StringExecFns;

verus! {

/// The name of the metric where no service has been named, and the end of its
/// name where one has.
pub const METRIC_SUFFIX: &'static str = "task_duration_ms";

/// The name of the duration metric of a service: the service name, an
/// underscore, and the suffix.
pub open spec fn metric_name_of(service_name: Seq<char>) -> Seq<char> {
    service_name + seq!['_'] + METRIC_SUFFIX@
}

/// Names the duration metric of the service `service_name`. The caller
/// registers the metric under this name.
pub fn init(service_name: &str) -> (metric_name: String)
    ensures
        metric_name@ == metric_name_of(service_name@),
{
    proof {
        reveal_strlit("_");
    }
    let metric_name = service_name.to_owned().concat("_").concat(METRIC_SUFFIX);
    assert(metric_name@ =~= metric_name_of(service_name@));
    metric_name
}

/// The name under which a duration is recorded: the registered name, or the
/// bare suffix where none was registered.
pub fn metric_in_use(registered: Option<&String>) -> (name: String)
    ensures
        match registered {
            Some(given) => name@ == given@,
            None => name@ == METRIC_SUFFIX@,
        },
{
    match registered {
        Some(given) => given.clone(),
        None => METRIC_SUFFIX.to_owned(),
    }
}

} // verus!
