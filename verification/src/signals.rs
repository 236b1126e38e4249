//! Delivery of signals to the monitor, through the `signal-hook` crate.
use vstd::prelude::*;
use crate::alarm::PlatformError;
use crate::domain::{ClockDomain, SIGINT, SIGQUIT, SIGTERM};
use crate::monitor::{drained, Diagnostic, Monitor, MonitorState};
use signal_hook::iterator::Signals;

verus! {

/// A registration with the operating system from which the signals that
/// arrive can be taken. It holds a `signal_hook::iterator::Signals`, whose type
/// is bound by a trait of that crate and so cannot be shown to the verifier:
/// nothing is known of what is inside.
#[verifier::external_body]
pub struct SignalSource {
    inner: Signals,
}

/// `std::io::Error`, carried through unread.
#[verifier::external_type_specification]
#[verifier::external_body]
pub struct ExIoError(std::io::Error);

/// The signals that a source was registered for.
pub uninterp spec fn watched(source: SignalSource) -> Set<i32>;

/// Whether a signal number can be handed to the registration at all: it lies
/// in the range the registry has room for and is none of the signals it
/// refuses to handle (illegal instruction, arithmetic fault, kill, invalid
/// memory reference, stop).
pub open spec fn registrable(signal: i32) -> bool {
    &&& 0 <= signal < 128
    &&& signal != 4
    &&& signal != 8
    &&& signal != 9
    &&& signal != 11
    &&& signal != 19
}

/// Calls `signal_hook::iterator::Signals::new` on the listed signals. Whether
/// it succeeds is not claimed: the operating system decides whether the
/// handlers can be installed. What is claimed is that a source that comes
/// back was registered for the listed signals and no others. The call panics
/// on a signal that is not `registrable`, so such a list is kept out.
#[verifier::external_body]
fn install(signals: &Vec<i32>) -> (r: Result<SignalSource, std::io::Error>)
    requires
        forall|i: int| 0 <= i < signals@.len() ==> registrable(#[trigger] signals@[i]),
    ensures
        r matches Ok(source) ==> watched(source) == signals@.to_set(),
{
    match Signals::new(signals) {
        Ok(inner) => Ok(SignalSource { inner }),
        Err(error) => Err(error),
    }
}

/// Calls `signal_hook::iterator::SignalsInfo::pending` and collects the signal
/// numbers it yields. Which signals arrived since the last call, and in
/// what order they come out, is not claimed. What is claimed is that each of
/// them is one the source was registered for, and that the call registers
/// nothing new.
#[verifier::external_body]
fn arrived(source: &mut SignalSource) -> (r: Vec<i32>)
    ensures
        watched(*final(source)) == watched(*old(source)),
        forall|i: int| 0 <= i < r@.len() ==> watched(*old(source)).contains(#[trigger] r@[i]),
{
    source.inner.pending().collect()
}

/// The signals a monitor of `domain` listens for: the domain's expiry signal,
/// then the three termination requests.
pub open spec fn watch_list(domain: ClockDomain) -> Seq<i32> {
    seq![domain.expiry(), SIGTERM, SIGINT, SIGQUIT]
}

/// The signals a monitor of `domain` listens for: the domain's expiry signal,
/// then the three termination requests.
pub fn watched_signals(domain: ClockDomain) -> (r: Vec<i32>)
    ensures
        r@ == watch_list(domain),
{
    let mut list: Vec<i32> = Vec::new();
    list.push(domain.expiry_signal());
    list.push(SIGTERM);
    list.push(SIGINT);
    list.push(SIGQUIT);
    assert(list@ =~= seq![domain.expiry(), SIGTERM, SIGINT, SIGQUIT]);
    list
}

/// Turns the outcome of a registration into the library's own terms: a source
/// of signals is handed on as it is, and any failure is a `Registration`
/// error.
pub fn registration(outcome: Result<SignalSource, std::io::Error>) -> (r: Result<
    SignalSource,
    PlatformError,
>)
    ensures
        outcome matches Ok(source) ==> r == Ok::<SignalSource, PlatformError>(source),
        outcome is Err ==> r == Err::<SignalSource, PlatformError>(PlatformError::Registration),
{
    match outcome {
        Ok(source) => Ok(source),
        Err(_) => Err(PlatformError::Registration),
    }
}

/// Registers for the signals a monitor of `domain` listens for. Whether that
/// succeeds is up to the operating system. A source that comes back is
/// registered for exactly those signals; a failure is always the
/// `Registration` error.
pub fn listen(domain: ClockDomain) -> (r: Result<SignalSource, PlatformError>)
    ensures
        r matches Ok(source) ==> watched(source) == watch_list(domain).to_set(),
        r matches Err(e) ==> e == PlatformError::Registration,
{
    let list = watched_signals(domain);
    registration(install(&list))
}

/// `batch` holds only signals that `source` was registered for.
pub open spec fn from_source(source: SignalSource, batch: Seq<i32>) -> bool {
    forall|i: int| 0 <= i < batch.len() ==> watched(source).contains(#[trigger] batch[i])
}

/// One round of the monitor: takes every signal that has arrived since the
/// last round and drains them as one batch. Which signals arrived is not
/// known beforehand; whatever they were, they were signals of the source and
/// the monitor has drained exactly them.
pub fn poll(monitor: &mut Monitor, source: &mut SignalSource) -> (r: Vec<Diagnostic>)
    ensures
        watched(*final(source)) == watched(*old(source)),
        old(monitor).mode() == MonitorState::ShuttingDown ==> r@.len() == 0 && *final(monitor)
            == *old(monitor),
        old(monitor).mode() != MonitorState::ShuttingDown ==> exists|batch: Seq<i32>|
            from_source(*old(source), batch) && drained(
                *old(monitor),
                batch,
                *final(monitor),
                r@,
            ),
{
    let batch = arrived(source);
    let out = monitor.drain(&batch);
    proof {
        if old(monitor).mode() != MonitorState::ShuttingDown {
            assert(from_source(*old(source), batch@) && drained(
                *old(monitor),
                batch@,
                *monitor,
                out@,
            ));
        }
    }
    out
}

} // verus!
