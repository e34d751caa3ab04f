use crate::duration::{
    expiry_secs, parse_duration, reading_of, rejection_text, DurationError, DurationOutcome, Reading,
    Rejection,
};
use crate::expiry::encodable;
use crate::expiry::Expiry;
use vstd::prelude::*;
use vstd::string::*;

verus! {

/// The public confirmation that `display_name` was timed out for the token
/// `duration`, echoed as it was typed.
pub open spec fn confirmation_text(display_name: Seq<char>, duration: Seq<char>) -> Seq<char> {
    "Timed "@ + display_name + " out for `"@ + duration + "`."@
}

/// Builds the public confirmation `Timed <display_name> out for `<duration>`.`.
pub fn confirmation(display_name: &str, duration: &str) -> (r: String)
    ensures
        r@ == confirmation_text(display_name@, duration@),
{
    let mut text = String::from_str("Timed ");
    text.append(display_name);
    text.append(" out for `");
    text.append(duration);
    text.append("`.");
    text
}

/// What the caller must do next on behalf of a timeout command.
pub enum Step {
    /// Send `content` as a reply, visible to the author alone if `ephemeral`;
    /// the command is then over.
    Reply { content: String, ephemeral: bool },
    /// Look up the target member in the guild the command came from.
    FetchMember,
    /// Suspend the member's communication until `until`, with `reason` as the
    /// audit-log justification.
    EditMember { until: Expiry, reason: String },
    /// Nothing is left to do.
    Finish,
}

/// Whether `step` is a reply with `text` that only the author sees.
pub open spec fn is_private_reply(step: Step, text: Seq<char>) -> bool {
    step matches Step::Reply { content, ephemeral } && ephemeral && content@ == text
}

/// What the caller reports back after carrying out a step.
pub enum Event {
    /// The target member was found.
    MemberFetched,
    /// The member was timed out; `display_name` is read from the edited member.
    MemberEdited { display_name: String },
}

/// Where a timeout command stands.
#[derive(Clone, Copy)]
pub enum Phase {
    /// Waiting for the target member; the timeout will end at the expiry.
    AwaitMember(Expiry),
    /// Waiting for the member edit to be applied.
    AwaitEdit,
    /// The command is over.
    Done,
}

/// One run of the timeout command: the duration token and the audit reason
/// as the author gave them, and the phase reached.
pub struct TimeoutSession {
    pub duration: String,
    pub reason: String,
    pub phase: Phase,
}

impl TimeoutSession {
    /// Starts a timeout command at Unix second `now_secs`.
    ///
    /// A rejected duration ends the command at once with a private reply that
    /// says why; a readable one leads to looking up the member. Errors of the
    /// duration are handed back unchanged.
    pub fn begin(now_secs: u64, duration: String, reason: String) -> (r: Result<
        (TimeoutSession, Step),
        DurationError,
    >)
        ensures
            match reading_of(duration@) {
                Reading::Minutes(m) => if encodable(expiry_secs(now_secs as int, m as int)) {
                    r matches Ok((s, step)) && step is FetchMember && (s.phase matches Phase::AwaitMember(
                        e,
                    ) && e@ == expiry_secs(now_secs as int, m as int))
                } else {
                    r == Err::<(TimeoutSession, Step), DurationError>(DurationError::OutOfRange)
                },
                Reading::TooLong => r matches Ok((s, step)) && s.phase is Done
                    && is_private_reply(step, rejection_text(Rejection::TooLong)),
                Reading::BadFormat => r matches Ok((s, step)) && s.phase is Done
                    && is_private_reply(step, rejection_text(Rejection::BadFormat)),
                Reading::NotANumber => r == Err::<(TimeoutSession, Step), DurationError>(
                    DurationError::NotANumber,
                ),
            },
            r matches Ok((s, _)) ==> s.duration@ == duration@ && s.reason@ == reason@,
    {
        match parse_duration(now_secs, duration.as_str()) {
            Err(e) => Err(e),
            Ok(DurationOutcome::Rejected(why)) => {
                let content = String::from_str(why.message());
                Ok((
                    TimeoutSession { duration, reason, phase: Phase::Done },
                    Step::Reply { content, ephemeral: true },
                ))
            },
            Ok(DurationOutcome::Expires(e)) => Ok((
                TimeoutSession { duration, reason, phase: Phase::AwaitMember(e) },
                Step::FetchMember,
            )),
        }
    }

    /// Takes the command one step further after `event`.
    ///
    /// A found member is edited with the expiry and the author's reason; an
    /// edited member is confirmed publicly with the duration token as typed.
    /// Any event out of turn ends the command.
    pub fn advance(&mut self, event: Event) -> (step: Step)
        ensures
            final(self).duration == old(self).duration,
            final(self).reason == old(self).reason,
            match old(self).phase {
                Phase::AwaitMember(e) => if event is MemberFetched {
                    final(self).phase is AwaitEdit && (step matches Step::EditMember {
                        until,
                        reason,
                    } && until == e && reason@ == old(self).reason@)
                } else {
                    final(self).phase is Done && step is Finish
                },
                Phase::AwaitEdit => if event is MemberEdited {
                    final(self).phase is Done && (step matches Step::Reply { content, ephemeral }
                        && !ephemeral && content@ == confirmation_text(
                        event->display_name@,
                        old(self).duration@,
                    ))
                } else {
                    final(self).phase is Done && step is Finish
                },
                Phase::Done => final(self).phase is Done && step is Finish,
            },
    {
        let phase = self.phase;
        self.phase = Phase::Done;
        match (phase, event) {
            (Phase::AwaitMember(e), Event::MemberFetched) => {
                self.phase = Phase::AwaitEdit;
                Step::EditMember { until: e, reason: self.reason.clone() }
            },
            (Phase::AwaitEdit, Event::MemberEdited { display_name }) => {
                let content = confirmation(display_name.as_str(), self.duration.as_str());
                Step::Reply { content, ephemeral: false }
            },
            _ => Step::Finish,
        }
    }
}

} // verus!
