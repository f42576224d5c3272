use vstd::prelude::*;

use crate::logger::MockLogger;

verus! {

#[verifier::external_type_specification]
pub struct ExLevelFilter(log::LevelFilter);

/// Relies on log::LevelFilter::max: the most verbose filter, under which no
/// record is dropped.
pub assume_specification[ log::LevelFilter::max ]() -> (r: log::LevelFilter)
    ensures
        r == log::LevelFilter::Trace,
;

/// Relies on log::set_max_level: it stores the facade's global threshold.
pub assume_specification[ log::set_max_level ](level: log::LevelFilter);

/// Whether the sink has been installed as the process's logging backend.
///
/// The only transition is from `Unregistered` to `Registered`, and it is
/// never undone.
#[derive(Clone, Copy, Debug, PartialEq, Eq, Structural)]
pub enum Registration {
    Unregistered,
    Registered,
}

/// Initializes the sink for the calling thread.
///
/// On the first call of the process (`registration` still `Unregistered`)
/// the facade's threshold is set to the most verbose level, `Trace`, so that
/// no record is dropped, and the registration becomes `Registered`; the
/// threshold set is returned, and asks the caller to install the sink as the
/// backend. On every later call the threshold is left alone, nothing is
/// registered again, and `None` is returned. Whichever it is, the thread's
/// buffer `logger` is emptied.
pub fn init(registration: &mut Registration, logger: &mut MockLogger) -> (threshold: Option<
    log::LevelFilter,
>)
    ensures
        threshold == (if *old(registration) == Registration::Unregistered {
            Some(log::LevelFilter::Trace)
        } else {
            None
        }),
        *final(registration) == Registration::Registered,
        final(logger)@ == Seq::<(log::Level, Seq<char>)>::empty(),
{
    let threshold = if *registration == Registration::Unregistered {
        let most_verbose = log::LevelFilter::max();
        log::set_max_level(most_verbose);
        *registration = Registration::Registered;
        Some(most_verbose)
    } else {
        None
    };
    logger.empty();
    threshold
}

} // verus!
