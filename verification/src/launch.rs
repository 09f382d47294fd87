//! The download pipeline, modelled as a state machine: a HEAD probe for
//! the advertised `Content-Length`, a GET, a drain of the body, a write
//! to the staged file, and a watch loop until the observed file length
//! reaches the advertised total.  The surrounding application shell
//! performs the network and filesystem work and feeds every outcome back
//! as an event.

use vstd::prelude::*;

use crate::error::TransferError;

verus! {

// ---------------------------------------------------------------------
// Response headers, as plain values
// ---------------------------------------------------------------------

/// The mathematical view of a header list: each name as a character
/// sequence (lowercase on the wire), each value as its bytes, verbatim.
pub open spec fn headers_model(headers: Seq<(String, Vec<u8>)>) -> Seq<(Seq<char>, Seq<u8>)> {
    headers.map_values(|p: (String, Vec<u8>)| (p.0@, p.1@))
}

/// The value of the first header carrying the given name.
pub open spec fn header_lookup(headers: Seq<(Seq<char>, Seq<u8>)>, name: Seq<char>) -> Option<
    Seq<u8>,
>
    decreases headers.len(),
{
    if headers.len() == 0 {
        None
    } else if headers[0].0 == name {
        Some(headers[0].1)
    } else {
        header_lookup(headers.drop_first(), name)
    }
}

/// The advertised `Content-Length` among the headers, verbatim.
pub open spec fn content_length_of(headers: Seq<(Seq<char>, Seq<u8>)>) -> Option<Seq<u8>> {
    header_lookup(headers, "content-length"@)
}

/// Copies a byte buffer.
fn clone_bytes(v: &Vec<u8>) -> (r: Vec<u8>)
    ensures
        r@ == v@,
{
    let n = v.len();
    let mut r: Vec<u8> = Vec::new();
    let mut i: usize = 0;
    while i < n
        invariant
            i <= n,
            n == v@.len(),
            r@ =~= v@.take(i as int),
        decreases n - i,
    {
        r.push(v[i]);
        i = i + 1;
    }
    proof {
        assert(v@.take(n as int) =~= v@);
    }
    r
}

/// Retrieves the first `content-length` header value, byte-for-byte, or
/// reports that none is present.
pub fn find_content_length(headers: &Vec<(String, Vec<u8>)>) -> (r: Option<Vec<u8>>)
    ensures
        match r {
            Some(v) => content_length_of(headers_model(headers@)) == Some(v@),
            None => content_length_of(headers_model(headers@)) is None,
        },
{
    let name = String::from_str("content-length");
    let ghost model = headers_model(headers@);
    let n = headers.len();
    proof {
        assert(model.skip(0) =~= model);
    }
    let mut i: usize = 0;
    while i < n
        invariant
            i <= n,
            n == headers@.len(),
            name@ == "content-length"@,
            model == headers_model(headers@),
            model.len() == n,
            header_lookup(model, "content-length"@) == header_lookup(
                model.skip(i as int),
                "content-length"@,
            ),
        decreases n - i,
    {
        proof {
            assert(model[i as int] == (headers@[i as int].0@, headers@[i as int].1@));
            assert(model.skip(i as int)[0] == model[i as int]);
        }
        if headers[i].0 == name {
            let v = clone_bytes(&headers[i].1);
            proof {
                assert(model.skip(i as int)[0].0 == "content-length"@);
                assert(header_lookup(model.skip(i as int), "content-length"@) == Some(
                    model[i as int].1,
                ));
            }
            return Some(v);
        }
        proof {
            assert(model.skip(i as int)[0].0 != "content-length"@);
            assert(model.skip(i as int).drop_first() =~= model.skip(i + 1));
        }
        i = i + 1;
    }
    proof {
        assert(model.skip(n as int) =~= Seq::<(Seq<char>, Seq<u8>)>::empty());
    }
    None
}

// ---------------------------------------------------------------------
// Parsing the Content-Length value
// ---------------------------------------------------------------------

/// Whether the bytes are a nonempty run of ASCII decimal digits.
pub open spec fn is_digits(s: Seq<u8>) -> bool {
    s.len() > 0 && forall|i: int| 0 <= i < s.len() ==> 48 <= #[trigger] s[i] <= 57
}

/// The number a run of decimal digit bytes denotes, most significant
/// digit first.
pub open spec fn digits_value(s: Seq<u8>) -> int
    decreases s.len(),
{
    if s.len() == 0 {
        0
    } else {
        digits_value(s.drop_last()) * 10 + (s.last() - 48)
    }
}

/// The unsigned 64-bit integer a byte string denotes: defined exactly
/// when the string is a nonempty run of decimal digits whose value fits.
pub open spec fn parse_u64_spec(s: Seq<u8>) -> Option<u64> {
    if is_digits(s) && digits_value(s) <= u64::MAX {
        Some(digits_value(s) as u64)
    } else {
        None
    }
}

/// A run of digit bytes denotes a nonnegative number.
proof fn lemma_digits_value_nonneg(s: Seq<u8>)
    requires
        forall|i: int| 0 <= i < s.len() ==> 48 <= #[trigger] s[i] <= 57,
    ensures
        digits_value(s) >= 0,
    decreases s.len(),
{
    if s.len() > 0 {
        lemma_digits_value_nonneg(s.drop_last());
    }
}

/// Extending a run of digits to the right can only grow its value.
proof fn lemma_digits_value_prefix(s: Seq<u8>, i: int)
    requires
        0 <= i <= s.len(),
        forall|j: int| 0 <= j < s.len() ==> 48 <= #[trigger] s[j] <= 57,
    ensures
        digits_value(s.take(i)) <= digits_value(s),
    decreases s.len() - i,
{
    if i == s.len() {
        assert(s.take(i) =~= s);
    } else {
        assert(s.take(i + 1).drop_last() =~= s.take(i));
        assert(s.take(i + 1).last() == s[i]);
        assert(forall|j: int|
            0 <= j < s.take(i).len() ==> 48 <= #[trigger] s.take(i)[j] <= 57);
        lemma_digits_value_nonneg(s.take(i));
        assert(digits_value(s.take(i + 1)) == digits_value(s.take(i)) * 10 + (s[i] - 48));
        lemma_digits_value_prefix(s, i + 1);
    }
}

/// Parses a byte string as an unsigned 64-bit decimal integer; reports
/// failure exactly when the string is empty, holds a non-digit byte, or
/// denotes a value above `u64::MAX`.
pub fn parse_u64(s: &Vec<u8>) -> (r: Option<u64>)
    ensures
        r == parse_u64_spec(s@),
{
    let n = s.len();
    if n == 0 {
        return None;
    }
    let mut val: u64 = 0;
    let mut i: usize = 0;
    while i < n
        invariant
            i <= n,
            0 < n == s@.len(),
            forall|j: int| 0 <= j < i ==> 48 <= #[trigger] s@[j] <= 57,
            val == digits_value(s@.take(i as int)),
        decreases n - i,
    {
        let b = s[i];
        if b < 48 || b > 57 {
            proof {
                assert(!is_digits(s@));
            }
            return None;
        }
        let d = (b - 48) as u64;
        proof {
            assert(s@.take(i + 1).drop_last() =~= s@.take(i as int));
            assert(s@.take(i + 1).last() == s@[i as int]);
            assert(digits_value(s@.take(i + 1)) == val * 10 + d);
        }
        if val > (u64::MAX - d) / 10 {
            proof {
                vstd::arithmetic::div_mod::lemma_fundamental_div_mod(
                    (u64::MAX - d) as int,
                    10,
                );
                assert(val * 10 + d > u64::MAX);
                if is_digits(s@) {
                    lemma_digits_value_prefix(s@, i + 1);
                    assert(digits_value(s@) > u64::MAX);
                }
            }
            return None;
        }
        proof {
            vstd::arithmetic::div_mod::lemma_fundamental_div_mod((u64::MAX - d) as int, 10);
            assert(val * 10 + d <= u64::MAX);
        }
        val = val * 10 + d;
        i = i + 1;
    }
    proof {
        assert(s@.take(n as int) =~= s@);
        assert(is_digits(s@));
    }
    Some(val)
}

// ---------------------------------------------------------------------
// The pipeline state machine
// ---------------------------------------------------------------------

/// The mathematical model of a pipeline phase.
pub enum PhaseModel {
    /// Issue the HEAD probe for the expected byte count.
    Probe,
    /// The advertised `Content-Length`, verbatim; issue the GET.
    Fetch { content_length: Seq<u8> },
    /// GET response headers arrived; drain the body into a buffer.
    Drain { content_length: Seq<u8> },
    /// The body is buffered; write it to the staged file.
    Store { content_length: Seq<u8> },
    /// The file is written; watch its length until it reaches `total`.
    Watch { total: u64 },
    /// The download is complete.
    Complete { total: u64 },
    /// The pipeline failed; nothing is retried.
    Failed { error: TransferError },
}

/// The mathematical model of an observed outcome of outside work.
pub enum EventModel {
    HeadOk { headers: Seq<(Seq<char>, Seq<u8>)> },
    HeadFailed,
    GetOk,
    GetFailed,
    DrainOk,
    DrainFailed,
    WriteOk,
    WriteFailed,
    StatOk { length: u64 },
    StatFailed,
}

/// One phase of the download pipeline, as the driver holds it.
pub enum LaunchPhase {
    /// Issue the HEAD probe for the expected byte count.
    Probe,
    /// The advertised `Content-Length`, verbatim; issue the GET.
    Fetch { content_length: Vec<u8> },
    /// GET response headers arrived; drain the body into a buffer.
    Drain { content_length: Vec<u8> },
    /// The body is buffered; write it to the staged file.
    Store { content_length: Vec<u8> },
    /// The file is written; watch its length until it reaches `total`.
    Watch { total: u64 },
    /// The download is complete.
    Complete { total: u64 },
    /// The pipeline failed; nothing is retried.
    Failed { error: TransferError },
}

/// What the driver observed of the outside world, handed back to the
/// machine.  Header names are lowercase on the wire; values verbatim.
pub enum LaunchEvent {
    HeadOk { headers: Vec<(String, Vec<u8>)> },
    HeadFailed,
    GetOk,
    GetFailed,
    DrainOk,
    DrainFailed,
    WriteOk,
    WriteFailed,
    StatOk { length: u64 },
    StatFailed,
}

/// The outside work a phase asks the driver to perform next.
pub enum LaunchAction {
    /// Issue a HEAD request against the transfer's URI.
    IssueHead,
    /// Issue a GET request against the transfer's URI.
    IssueGet,
    /// Drain the GET response body into a buffer.
    DrainBody,
    /// Write the buffered body to the staged file.
    WriteFile,
    /// Stat the staged file and report its length.
    StatFile,
    /// Finish the progress indicator; the pipeline is done.
    Finish,
    /// Surface the error; the pipeline is over.
    Report { error: TransferError },
}

impl View for LaunchPhase {
    type V = PhaseModel;

    open spec fn view(&self) -> PhaseModel {
        match self {
            LaunchPhase::Probe => PhaseModel::Probe,
            LaunchPhase::Fetch { content_length } => (PhaseModel::Fetch {
                content_length: content_length@,
            }),
            LaunchPhase::Drain { content_length } => (PhaseModel::Drain {
                content_length: content_length@,
            }),
            LaunchPhase::Store { content_length } => (PhaseModel::Store {
                content_length: content_length@,
            }),
            LaunchPhase::Watch { total } => (PhaseModel::Watch { total: *total }),
            LaunchPhase::Complete { total } => (PhaseModel::Complete { total: *total }),
            LaunchPhase::Failed { error } => (PhaseModel::Failed { error: *error }),
        }
    }
}

impl View for LaunchEvent {
    type V = EventModel;

    open spec fn view(&self) -> EventModel {
        match self {
            LaunchEvent::HeadOk { headers } => (EventModel::HeadOk {
                headers: headers_model(headers@),
            }),
            LaunchEvent::HeadFailed => EventModel::HeadFailed,
            LaunchEvent::GetOk => EventModel::GetOk,
            LaunchEvent::GetFailed => EventModel::GetFailed,
            LaunchEvent::DrainOk => EventModel::DrainOk,
            LaunchEvent::DrainFailed => EventModel::DrainFailed,
            LaunchEvent::WriteOk => EventModel::WriteOk,
            LaunchEvent::WriteFailed => EventModel::WriteFailed,
            LaunchEvent::StatOk { length } => (EventModel::StatOk { length: *length }),
            LaunchEvent::StatFailed => EventModel::StatFailed,
        }
    }
}

/// The transition relation of the pipeline, as a total function.  An
/// event that does not belong to the current phase leaves it unchanged;
/// `Complete` and `Failed` absorb every event.
pub open spec fn step_model(phase: PhaseModel, event: EventModel) -> PhaseModel {
    match (phase, event) {
        (PhaseModel::Probe, EventModel::HeadOk { headers }) => match content_length_of(headers) {
            Some(v) => PhaseModel::Fetch { content_length: v },
            None => PhaseModel::Failed { error: TransferError::MissingContentLength },
        },
        (PhaseModel::Probe, EventModel::HeadFailed) => (PhaseModel::Failed {
            error: TransferError::HttpTransport,
        }),
        (PhaseModel::Fetch { content_length }, EventModel::GetOk) => (PhaseModel::Drain {
            content_length,
        }),
        (PhaseModel::Fetch { .. }, EventModel::GetFailed) => (PhaseModel::Failed {
            error: TransferError::HttpTransport,
        }),
        (PhaseModel::Drain { content_length }, EventModel::DrainOk) => (PhaseModel::Store {
            content_length,
        }),
        (PhaseModel::Drain { .. }, EventModel::DrainFailed) => (PhaseModel::Failed {
            error: TransferError::BodyDrain,
        }),
        (PhaseModel::Store { content_length }, EventModel::WriteOk) => match parse_u64_spec(
            content_length,
        ) {
            Some(total) => PhaseModel::Watch { total },
            None => PhaseModel::Failed { error: TransferError::MissingContentLength },
        },
        (PhaseModel::Store { .. }, EventModel::WriteFailed) => (PhaseModel::Failed {
            error: TransferError::FileIo,
        }),
        (PhaseModel::Watch { total }, EventModel::StatOk { length }) => if length >= total {
            PhaseModel::Complete { total }
        } else {
            PhaseModel::Watch { total }
        },
        (PhaseModel::Watch { .. }, EventModel::StatFailed) => (PhaseModel::Failed {
            error: TransferError::FileIo,
        }),
        (p, _) => p,
    }
}

/// The outside work each phase calls for.
pub open spec fn action_model(phase: PhaseModel) -> LaunchAction {
    match phase {
        PhaseModel::Probe => LaunchAction::IssueHead,
        PhaseModel::Fetch { .. } => LaunchAction::IssueGet,
        PhaseModel::Drain { .. } => LaunchAction::DrainBody,
        PhaseModel::Store { .. } => LaunchAction::WriteFile,
        PhaseModel::Watch { .. } => LaunchAction::StatFile,
        PhaseModel::Complete { .. } => LaunchAction::Finish,
        PhaseModel::Failed { error } => (LaunchAction::Report { error }),
    }
}

impl LaunchPhase {
    /// Advances the pipeline by one observed outcome, exactly as the
    /// transition relation prescribes.
    pub fn step(self, event: LaunchEvent) -> (r: LaunchPhase)
        ensures
            r@ == step_model(self@, event@),
    {
        match (self, event) {
            (LaunchPhase::Probe, LaunchEvent::HeadOk { headers }) => {
                match find_content_length(&headers) {
                    Some(v) => LaunchPhase::Fetch { content_length: v },
                    None => LaunchPhase::Failed { error: TransferError::MissingContentLength },
                }
            },
            (LaunchPhase::Probe, LaunchEvent::HeadFailed) => {
                LaunchPhase::Failed { error: TransferError::HttpTransport }
            },
            (LaunchPhase::Fetch { content_length }, LaunchEvent::GetOk) => {
                LaunchPhase::Drain { content_length }
            },
            (LaunchPhase::Fetch { .. }, LaunchEvent::GetFailed) => {
                LaunchPhase::Failed { error: TransferError::HttpTransport }
            },
            (LaunchPhase::Drain { content_length }, LaunchEvent::DrainOk) => {
                LaunchPhase::Store { content_length }
            },
            (LaunchPhase::Drain { .. }, LaunchEvent::DrainFailed) => {
                LaunchPhase::Failed { error: TransferError::BodyDrain }
            },
            (LaunchPhase::Store { content_length }, LaunchEvent::WriteOk) => {
                match parse_u64(&content_length) {
                    Some(total) => LaunchPhase::Watch { total },
                    None => LaunchPhase::Failed { error: TransferError::MissingContentLength },
                }
            },
            (LaunchPhase::Store { .. }, LaunchEvent::WriteFailed) => {
                LaunchPhase::Failed { error: TransferError::FileIo }
            },
            (LaunchPhase::Watch { total }, LaunchEvent::StatOk { length }) => {
                if length >= total {
                    LaunchPhase::Complete { total }
                } else {
                    LaunchPhase::Watch { total }
                }
            },
            (LaunchPhase::Watch { .. }, LaunchEvent::StatFailed) => {
                LaunchPhase::Failed { error: TransferError::FileIo }
            },
            (p, _) => p,
        }
    }

    /// The outside work the driver must perform in this phase.
    pub fn action(&self) -> (r: LaunchAction)
        ensures
            r == action_model(self@),
    {
        match self {
            LaunchPhase::Probe => LaunchAction::IssueHead,
            LaunchPhase::Fetch { .. } => LaunchAction::IssueGet,
            LaunchPhase::Drain { .. } => LaunchAction::DrainBody,
            LaunchPhase::Store { .. } => LaunchAction::WriteFile,
            LaunchPhase::Watch { .. } => LaunchAction::StatFile,
            LaunchPhase::Complete { .. } => LaunchAction::Finish,
            LaunchPhase::Failed { error } => LaunchAction::Report { error: *error },
        }
    }

    /// Retrieval law for the advertised size: from the probe phase the
    /// pipeline advances exactly on a HEAD outcome whose headers carry a
    /// `content-length`, and it records that value byte-for-byte.
    pub proof fn lemma_probe_content_length(event: EventModel)
        ensures
            step_model(PhaseModel::Probe, event) matches PhaseModel::Fetch { content_length }
                ==> event matches EventModel::HeadOk { headers } && content_length_of(headers)
                == Some(content_length),
            event matches EventModel::HeadOk { headers } ==> match content_length_of(headers) {
                Some(v) => step_model(PhaseModel::Probe, event) == (PhaseModel::Fetch {
                    content_length: v,
                }),
                None => step_model(PhaseModel::Probe, event) == (PhaseModel::Failed {
                    error: TransferError::MissingContentLength,
                }),
            },
    {
    }

    /// Completion law: the watch phase completes exactly when a stat
    /// reports that the observed file length has reached the advertised
    /// total, and the total is carried over unchanged.
    pub proof fn lemma_watch_completion(total: u64, event: EventModel)
        ensures
            step_model((PhaseModel::Watch { total }), event) is Complete <==> (event matches
                EventModel::StatOk { length } && length >= total),
            step_model((PhaseModel::Watch { total }), event) matches PhaseModel::Complete {
                total: t,
            } ==> t == total,
    {
    }

    /// Whether the pipeline is over, successfully or not.
    pub fn is_terminal(&self) -> (r: bool)
        ensures
            r == (self@ is Complete || self@ is Failed),
    {
        match self {
            LaunchPhase::Complete { .. } => true,
            LaunchPhase::Failed { .. } => true,
            _ => false,
        }
    }
}

// ---------------------------------------------------------------------
// Laws about whole runs of the pipeline
// ---------------------------------------------------------------------

/// The phase a run of observed events drives the machine to.
pub open spec fn run_model(phase: PhaseModel, events: Seq<EventModel>) -> PhaseModel
    decreases events.len(),
{
    if events.len() == 0 {
        phase
    } else {
        run_model(step_model(phase, events[0]), events.drop_first())
    }
}

/// Whether an event is a HEAD outcome whose headers advertise exactly
/// this `Content-Length` value.
pub open spec fn head_advertises(event: EventModel, content_length: Seq<u8>) -> bool {
    event matches EventModel::HeadOk { headers } && content_length_of(headers) == Some(
        content_length,
    )
}

/// Whether an event is a stat outcome that observed at least `total`
/// bytes in the staged file.
pub open spec fn stat_observes(event: EventModel, total: u64) -> bool {
    event matches EventModel::StatOk { length } && length >= total
}

/// Some event of the run advertised exactly this `Content-Length`.
pub open spec fn advertised(events: Seq<EventModel>, content_length: Seq<u8>) -> bool {
    exists|i: int| 0 <= i < events.len() && head_advertises(#[trigger] events[i], content_length)
}

/// Some event of the run advertised a value that parses to this total.
pub open spec fn advertised_total(events: Seq<EventModel>, total: u64) -> bool {
    exists|content_length: Seq<u8>|
        advertised(events, content_length) && parse_u64_spec(content_length) == Some(total)
}

/// Some event of the run observed the staged file at `total` bytes or
/// more.
pub open spec fn observed_full_length(events: Seq<EventModel>, total: u64) -> bool {
    exists|i: int| 0 <= i < events.len() && stat_observes(#[trigger] events[i], total)
}

/// What each phase owes to the events seen so far: a recorded
/// `Content-Length` was advertised by a HEAD outcome among them; a watch
/// or completion total parses from such a value; and a completed
/// pipeline moreover observed the staged file at no less than its total.
pub open spec fn phase_provenance(phase: PhaseModel, events: Seq<EventModel>) -> bool {
    match phase {
        PhaseModel::Probe => true,
        PhaseModel::Fetch { content_length } => advertised(events, content_length),
        PhaseModel::Drain { content_length } => advertised(events, content_length),
        PhaseModel::Store { content_length } => advertised(events, content_length),
        PhaseModel::Watch { total } => advertised_total(events, total),
        PhaseModel::Complete { total } => advertised_total(events, total)
            && observed_full_length(events, total),
        PhaseModel::Failed { .. } => true,
    }
}

/// Running one more event is stepping the phase the run arrived at.
proof fn lemma_run_snoc(phase: PhaseModel, events: Seq<EventModel>, event: EventModel)
    ensures
        run_model(phase, events.push(event)) == step_model(run_model(phase, events), event),
    decreases events.len(),
{
    if events.len() == 0 {
        assert(events.push(event)[0] == event);
        assert(events.push(event).drop_first() =~= Seq::<EventModel>::empty());
        assert(run_model(phase, events.push(event)) == run_model(
            step_model(phase, event),
            Seq::<EventModel>::empty(),
        ));
    } else {
        assert(events.push(event)[0] == events[0]);
        assert(events.push(event).drop_first() =~= events.drop_first().push(event));
        assert(run_model(phase, events.push(event)) == run_model(
            step_model(phase, events[0]),
            events.drop_first().push(event),
        ));
        assert(run_model(phase, events) == run_model(
            step_model(phase, events[0]),
            events.drop_first(),
        ));
        lemma_run_snoc(step_model(phase, events[0]), events.drop_first(), event);
    }
}

/// A provenance witness survives appending a further event.
proof fn lemma_provenance_extend(phase: PhaseModel, events: Seq<EventModel>, event: EventModel)
    requires
        phase_provenance(phase, events),
    ensures
        phase_provenance(phase, events.push(event)),
{
    let extended = events.push(event);
    assert forall|content_length: Seq<u8>|
        advertised(events, content_length) implies advertised(extended, content_length) by {
        let i = choose|i: int|
            0 <= i < events.len() && head_advertises(#[trigger] events[i], content_length);
        assert(extended[i] == events[i]);
        assert(head_advertises(extended[i], content_length));
    }
    assert forall|total: u64| observed_full_length(events, total) implies observed_full_length(
        extended,
        total,
    ) by {
        let i = choose|i: int| 0 <= i < events.len() && stat_observes(#[trigger] events[i], total);
        assert(extended[i] == events[i]);
        assert(stat_observes(extended[i], total));
    }
}

/// Terminal phases are stable: a completed pipeline stays complete with
/// its total, and a failed one stays failed with its error, whatever
/// further events arrive.  In particular there is no transition out of
/// completion back into an earlier phase.
pub proof fn lemma_terminal_stable(phase: PhaseModel, event: EventModel)
    ensures
        phase matches PhaseModel::Complete { total } ==> step_model(phase, event)
            == (PhaseModel::Complete { total }),
        phase matches PhaseModel::Failed { error } ==> step_model(phase, event)
            == (PhaseModel::Failed { error }),
{
}

/// Pipeline ordering law: however the outside world behaves, every phase
/// the machine reaches from the probe is justified by the events the
/// driver observed.  A recorded `Content-Length` was advertised by an
/// earlier HEAD outcome (so the HEAD probe precedes any fetch); a watch
/// or completion total parses from such an advertised value; and a
/// completed pipeline moreover observed the staged file at no less than
/// that total.
pub proof fn lemma_run_provenance(events: Seq<EventModel>)
    ensures
        phase_provenance(run_model(PhaseModel::Probe, events), events),
    decreases events.len(),
{
    if events.len() > 0 {
        let prefix = events.drop_last();
        let event = events.last();
        lemma_run_provenance(prefix);
        lemma_run_snoc(PhaseModel::Probe, prefix, event);
        assert(prefix.push(event) =~= events);
        let p = run_model(PhaseModel::Probe, prefix);
        lemma_provenance_extend(p, prefix, event);
        assert(events[events.len() - 1] == event);
        match (p, event) {
            (PhaseModel::Probe, EventModel::HeadOk { headers }) => {
                match content_length_of(headers) {
                    Some(v) => {
                        assert(head_advertises(events[events.len() - 1], v));
                        assert(advertised(events, v));
                    },
                    None => {},
                }
            },
            (PhaseModel::Store { content_length }, EventModel::WriteOk) => {
                match parse_u64_spec(content_length) {
                    Some(total) => {
                        assert(advertised(events, content_length));
                        assert(advertised_total(events, total));
                    },
                    None => {},
                }
            },
            (PhaseModel::Watch { total }, EventModel::StatOk { length }) => {
                if length >= total {
                    assert(stat_observes(events[events.len() - 1], total));
                    assert(observed_full_length(events, total));
                }
            },
            _ => {},
        }
    }
}

/// The HEAD probe precedes the GET: the machine asks the driver for a
/// GET only in the fetch phase, and a run from the probe reaches that
/// phase only after a HEAD outcome was observed.
pub proof fn lemma_get_needs_head(events: Seq<EventModel>)
    ensures
        action_model(run_model(PhaseModel::Probe, events)) is IssueGet ==> exists|i: int|
            0 <= i < events.len() && (#[trigger] events[i]) is HeadOk,
{
    lemma_run_provenance(events);
    let p = run_model(PhaseModel::Probe, events);
    if action_model(p) is IssueGet {
        match p {
            PhaseModel::Fetch { content_length } => {
                let i = choose|i: int|
                    0 <= i < events.len() && head_advertises(
                        #[trigger] events[i],
                        content_length,
                    );
                assert(events[i] is HeadOk);
            },
            _ => {},
        }
    }
}

} // verus!
