//! The interactive command core: one fetch renders one message with a
//! refresh button; matching presses re-fetch and edit the message in place;
//! the session ends at its idle timeout.
//!
//! The decision for one delivered event is `decide`; a whole session over a
//! script of fetch outcomes and events is `run_session`, whose behaviour is
//! pinned by the `replay` specification.

use vstd::prelude::*;
use crate::embed::{EmbedField, ImageResult};
use crate::errors::{FetchError, RunError};
use crate::numerals::{dec_of, u64_to_dec};

verus! {

/// The maximum idle wait per loop iteration, in seconds: with no matching
/// press for this long, the session ends. The window re-arms after each
/// handled press.
pub const IDLE_TIMEOUT_SECS: u64 = 120;

/// One interactive command execution: who invoked it, where, under which
/// invocation identifier, and the fixed texts of its messages. Lives only
/// for the duration of the listening loop.
pub struct InteractionSession {
    /// Unique per initial command execution; carried by the button.
    pub invocation_id: u64,
    /// The user whose presses are honoured.
    pub invoker_id: u64,
    /// The channel whose presses are honoured.
    pub channel_id: u64,
    /// The embed title, e.g. "Random Fox".
    pub title: String,
    /// The button label, e.g. "New Fox".
    pub button_label: String,
}

/// A component button press delivered by the platform.
pub struct ButtonPress {
    /// The custom identifier the pressed button carries.
    pub custom_id: String,
    /// The pressing user.
    pub presser_id: u64,
    /// The channel the press happened in.
    pub channel_id: u64,
}

/// What one wait for the next event produced: a press, or the idle timeout
/// elapsing with no matching press.
pub enum SessionEvent {
    Press(ButtonPress),
    TimedOut,
}

/// What the session does with one event.
#[derive(Clone, Copy, Debug, PartialEq, Eq, Structural)]
pub enum Decision {
    /// Fetch again, edit the message in place, acknowledge the press.
    Refresh,
    /// Keep waiting: the press is not for this session.
    Ignore,
    /// Terminal: no further fetches or edits.
    Finish,
}

/// A press is honoured exactly when its carried identifier is the decimal
/// rendering of the session's invocation identifier, the presser is the
/// original invoker, and the channel is the original channel.
pub open spec fn press_matches(s: InteractionSession, p: ButtonPress) -> bool {
    &&& p.custom_id@ == dec_of(s.invocation_id as nat)
    &&& p.presser_id == s.invoker_id
    &&& p.channel_id == s.channel_id
}

/// The session's decision for one event.
pub open spec fn decision_of(s: InteractionSession, ev: SessionEvent) -> Decision {
    match ev {
        SessionEvent::TimedOut => Decision::Finish,
        SessionEvent::Press(p) => if press_matches(s, p) {
            Decision::Refresh
        } else {
            Decision::Ignore
        },
    }
}

/// Decides what to do with one delivered event.
pub fn decide(s: &InteractionSession, ev: &SessionEvent) -> (d: Decision)
    ensures
        d == decision_of(*s, *ev),
{
    match ev {
        SessionEvent::TimedOut => Decision::Finish,
        SessionEvent::Press(p) => {
            let expected = u64_to_dec(s.invocation_id);
            if p.custom_id == expected && p.presser_id == s.invoker_id && p.channel_id
                == s.channel_id {
                Decision::Refresh
            } else {
                Decision::Ignore
            }
        },
    }
}

/// The one actionable button of a rendered message.
#[derive(Debug)]
pub struct Button {
    pub label: String,
    pub custom_id: String,
}

/// The embed of a rendered message.
#[derive(Debug)]
pub struct Embed {
    pub title: String,
    pub image_url: String,
    pub fields: Vec<EmbedField>,
}

/// One message as the bot sends or edits it: empty body text, one embed,
/// one button.
#[derive(Debug)]
pub struct RenderedMessage {
    pub content: String,
    pub embed: Embed,
    pub button: Button,
}

/// `m` is exactly the message the session renders for the fetch result `ir`:
/// empty body, the session's title, the fetched image URL and auxiliary
/// fields, and the identical button on every rendering.
pub open spec fn msg_renders(s: InteractionSession, ir: ImageResult, m: RenderedMessage) -> bool {
    &&& m.content@ == Seq::<char>::empty()
    &&& m.embed.title@ == s.title@
    &&& m.embed.image_url@ == ir.url@
    &&& m.embed.fields@ == ir.fields@
    &&& m.button.label@ == s.button_label@
    &&& m.button.custom_id@ == dec_of(s.invocation_id as nat)
}

/// Renders the message for one fetch result.
pub fn render_message(s: &InteractionSession, result: ImageResult) -> (m: RenderedMessage)
    ensures
        msg_renders(*s, result, m),
{
    RenderedMessage {
        content: String::new(),
        embed: Embed { title: s.title.clone(), image_url: result.url, fields: result.fields },
        button: Button {
            label: s.button_label.clone(),
            custom_id: u64_to_dec(s.invocation_id),
        },
    }
}

/// The refresh results a session renders after its first message, given the
/// outcomes the provider will return for successive refresh fetches and the
/// events delivered in order. Stops at the first timeout; a failed refresh
/// fetch aborts the loop; a refresh past the end of the script is a failed
/// fetch.
pub open spec fn replay_refreshes(
    s: InteractionSession,
    refreshes: Seq<Result<ImageResult, FetchError>>,
    events: Seq<SessionEvent>,
) -> Result<Seq<ImageResult>, RunError>
    decreases events.len(),
{
    if events.len() == 0 {
        Ok(Seq::empty())
    } else {
        match events[0] {
            SessionEvent::TimedOut => Ok(Seq::empty()),
            SessionEvent::Press(p) => {
                if !press_matches(s, p) {
                    replay_refreshes(s, refreshes, events.drop_first())
                } else if refreshes.len() == 0 {
                    Err(RunError::Transport)
                } else {
                    match refreshes[0] {
                        Err(_) => Err(RunError::Transport),
                        Ok(ir) => match replay_refreshes(
                            s,
                            refreshes.drop_first(),
                            events.drop_first(),
                        ) {
                            Ok(rest) => Ok(seq![ir] + rest),
                            Err(e) => Err(e),
                        },
                    }
                }
            },
        }
    }
}

/// The fetch results a whole session renders, in order: the initial fetch's
/// result first, then one per honoured press. An initial failure aborts
/// before anything is rendered.
pub open spec fn replay(
    s: InteractionSession,
    initial: Result<ImageResult, FetchError>,
    refreshes: Seq<Result<ImageResult, FetchError>>,
    events: Seq<SessionEvent>,
) -> Result<Seq<ImageResult>, RunError> {
    match initial {
        Err(e) => Err(RunError::Fetch(e)),
        Ok(ir0) => match replay_refreshes(s, refreshes, events) {
            Ok(rest) => Ok(seq![ir0] + rest),
            Err(e) => Err(e),
        },
    }
}

/// Runs one whole session over a script of fetch outcomes and delivered
/// events: renders the initial message, then handles each event as `decide`
/// says, editing by appending the re-rendered message. Returns the messages
/// in the order they were rendered, or the error the session aborted with.
pub fn run_session(
    s: &InteractionSession,
    initial: Result<ImageResult, FetchError>,
    refreshes: Vec<Result<ImageResult, FetchError>>,
    events: Vec<SessionEvent>,
) -> (r: Result<Vec<RenderedMessage>, RunError>)
    ensures
        match r {
            Ok(trace) => {
                &&& replay(*s, initial, refreshes@, events@) is Ok
                &&& trace@.len() == replay(*s, initial, refreshes@, events@)->Ok_0.len()
                &&& forall|n: int|
                    0 <= n < trace@.len() ==> msg_renders(
                        *s,
                        replay(*s, initial, refreshes@, events@)->Ok_0[n],
                        #[trigger] trace@[n],
                    )
            },
            Err(e) => replay(*s, initial, refreshes@, events@) == Err::<
                Seq<ImageResult>,
                RunError,
            >(e),
        },
{
    let ghost rep = replay(*s, initial, refreshes@, events@);
    let ir0 = match initial {
        Err(e) => {
            return Err(RunError::Fetch(e));
        },
        Ok(ir) => ir,
    };
    let ghost mut rendered: Seq<ImageResult> = seq![ir0];
    let mut trace: Vec<RenderedMessage> = Vec::new();
    trace.push(render_message(s, ir0));
    let mut refreshes = refreshes;
    let mut ei: usize = 0;
    let mut done = false;
    proof {
        assert(events@.skip(0) =~= events@);
    }
    #[verifier::loop_isolation(false)]
    while ei < events.len() && !done
        invariant
            ei <= events@.len(),
            trace@.len() == rendered.len(),
            forall|n: int|
                0 <= n < trace@.len() ==> msg_renders(*s, rendered[n], #[trigger] trace@[n]),
            done ==> rep == Ok::<Seq<ImageResult>, RunError>(rendered),
            !done ==> (match replay_refreshes(*s, refreshes@, events@.skip(ei as int)) {
                Ok(rest) => rep == Ok::<Seq<ImageResult>, RunError>(rendered + rest),
                Err(e) => rep == Err::<Seq<ImageResult>, RunError>(e),
            }),
        decreases events@.len() - ei,
    {
        let ghost remaining = events@.skip(ei as int);
        proof {
            assert(remaining[0] == events@[ei as int]);
            assert(remaining.drop_first() =~= events@.skip(ei as int + 1));
        }
        let ev = &events[ei];
        match decide(s, ev) {
            Decision::Finish => {
                done = true;
                ei = ei + 1;
            },
            Decision::Ignore => {
                ei = ei + 1;
            },
            Decision::Refresh => {
                if refreshes.len() == 0 {
                    return Err(RunError::Transport);
                }
                let ghost refreshes_before = refreshes@;
                let outcome = refreshes.remove(0);
                proof {
                    assert(refreshes@ =~= refreshes_before.drop_first());
                }
                match outcome {
                    Err(_) => {
                        return Err(RunError::Transport);
                    },
                    Ok(ir) => {
                        let ghost rendered_before = rendered;
                        trace.push(render_message(s, ir));
                        ei = ei + 1;
                        proof {
                            rendered = rendered_before.push(ir);
                            assert(replay_refreshes(*s, refreshes_before, remaining) == (
                            match replay_refreshes(*s, refreshes@, events@.skip(ei as int)) {
                                Ok(rest2) => Ok::<Seq<ImageResult>, RunError>(seq![ir] + rest2),
                                Err(e) => Err::<Seq<ImageResult>, RunError>(e),
                            }));
                            if let Ok(rest2) = replay_refreshes(
                                *s,
                                refreshes@,
                                events@.skip(ei as int),
                            ) {
                                assert(rendered + rest2 =~= rendered_before + (seq![ir] + rest2));
                            }
                        }
                    },
                }
            },
        }
    }
    proof {
        if !done {
            assert(events@.skip(events@.len() as int) =~= Seq::<SessionEvent>::empty());
            assert(rendered + Seq::<ImageResult>::empty() =~= rendered);
        }
    }
    Ok(trace)
}

proof fn lemma_replay_refreshes_follow(
    s: InteractionSession,
    refreshes: Seq<Result<ImageResult, FetchError>>,
    events: Seq<SessionEvent>,
)
    requires
        replay_refreshes(s, refreshes, events) is Ok,
    ensures
        ({
            let rest = replay_refreshes(s, refreshes, events)->Ok_0;
            &&& rest.len() <= refreshes.len()
            &&& forall|n: int|
                #![trigger refreshes[n]]
                0 <= n < rest.len() ==> refreshes[n] is Ok && rest[n] == refreshes[n]->Ok_0
        }),
    decreases events.len(),
{
    if events.len() == 0 {
    } else {
        match events[0] {
            SessionEvent::TimedOut => {},
            SessionEvent::Press(p) => {
                if !press_matches(s, p) {
                    lemma_replay_refreshes_follow(s, refreshes, events.drop_first());
                    let rest = replay_refreshes(s, refreshes, events)->Ok_0;
                    let rest_tail = replay_refreshes(s, refreshes, events.drop_first())->Ok_0;
                    assert forall|n: int| #![trigger refreshes[n]]
                        0 <= n < rest.len() implies refreshes[n] is Ok && rest[n]
                        == refreshes[n]->Ok_0 by {
                        assert(rest[n] == rest_tail[n]);
                        assert(refreshes[n] is Ok);
                    }
                } else {
                    lemma_replay_refreshes_follow(s, refreshes.drop_first(), events.drop_first());
                    let ir = refreshes[0]->Ok_0;
                    let rest2 = replay_refreshes(
                        s,
                        refreshes.drop_first(),
                        events.drop_first(),
                    )->Ok_0;
                    let rest = replay_refreshes(s, refreshes, events)->Ok_0;
                    assert(refreshes[0] is Ok);
                    assert(rest =~= seq![ir] + rest2);
                    assert forall|n: int| #![trigger refreshes[n]]
                        0 <= n < rest.len() implies refreshes[n] is Ok && rest[n]
                        == refreshes[n]->Ok_0 by {
                        if n > 0 {
                            assert(rest[n] == rest2[n - 1]);
                            assert(refreshes.drop_first()[n - 1] == refreshes[n]);
                            assert(refreshes.drop_first()[n - 1] is Ok);
                        }
                    }
                }
            },
        }
    }
}

/// Law: in a successful session the rendered fetch results follow the fetch
/// outcomes in order — the first rendered result is the initial fetch's,
/// and the (n+1)-th is what the n-th refresh fetch returned.
pub proof fn lemma_rendered_follow_fetches(
    s: InteractionSession,
    initial: Result<ImageResult, FetchError>,
    refreshes: Seq<Result<ImageResult, FetchError>>,
    events: Seq<SessionEvent>,
)
    requires
        replay(s, initial, refreshes, events) is Ok,
    ensures
        ({
            let rendered = replay(s, initial, refreshes, events)->Ok_0;
            &&& initial is Ok
            &&& 1 <= rendered.len() <= refreshes.len() + 1
            &&& rendered[0] == initial->Ok_0
            &&& forall|n: int|
                #![trigger refreshes[n]]
                0 <= n < rendered.len() - 1 ==> refreshes[n] is Ok && rendered[n + 1]
                    == refreshes[n]->Ok_0
        }),
{
    lemma_replay_refreshes_follow(s, refreshes, events);
    let rest = replay_refreshes(s, refreshes, events)->Ok_0;
    let rendered = replay(s, initial, refreshes, events)->Ok_0;
    assert(rendered =~= seq![initial->Ok_0] + rest);
    assert forall|n: int| #![trigger refreshes[n]]
        0 <= n < rendered.len() - 1 implies refreshes[n] is Ok && rendered[n + 1]
        == refreshes[n]->Ok_0 by {
        assert(rendered[n + 1] == rest[n]);
        assert(refreshes[n] is Ok);
    }
}

/// Law: over a successful session the rendered embeds' image URLs equal the
/// fetched URLs, in order — the first embed shows what the initial fetch
/// returned and the (n+1)-th embed what the n-th refresh fetch returned —
/// while every rendering keeps the session's title and the identical button.
/// The premises are exactly what `run_session` ensures of its trace.
pub proof fn lemma_trace_embeds_follow_fetches(
    s: InteractionSession,
    initial: Result<ImageResult, FetchError>,
    refreshes: Seq<Result<ImageResult, FetchError>>,
    events: Seq<SessionEvent>,
    trace: Seq<RenderedMessage>,
)
    requires
        replay(s, initial, refreshes, events) is Ok,
        trace.len() == replay(s, initial, refreshes, events)->Ok_0.len(),
        forall|n: int|
            0 <= n < trace.len() ==> msg_renders(
                s,
                replay(s, initial, refreshes, events)->Ok_0[n],
                #[trigger] trace[n],
            ),
    ensures
        trace.len() >= 1,
        initial is Ok && trace[0].embed.image_url@ == initial->Ok_0.url@,
        forall|n: int|
            #![trigger refreshes[n]]
            0 <= n < trace.len() - 1 ==> refreshes[n] is Ok && trace[n + 1].embed.image_url@
                == refreshes[n]->Ok_0.url@,
        forall|n: int|
            0 <= n < trace.len() ==> (#[trigger] trace[n]).embed.title@ == s.title@
                && trace[n].button.custom_id@ == dec_of(s.invocation_id as nat)
                && trace[n].button.label@ == s.button_label@,
{
    lemma_rendered_follow_fetches(s, initial, refreshes, events);
    let rendered = replay(s, initial, refreshes, events)->Ok_0;
    assert(msg_renders(s, rendered[0], trace[0]));
    assert forall|n: int| #![trigger refreshes[n]]
        0 <= n < trace.len() - 1 implies refreshes[n] is Ok && trace[n + 1].embed.image_url@
        == refreshes[n]->Ok_0.url@ by {
        assert(msg_renders(s, rendered[n + 1], trace[n + 1]));
        assert(rendered[n + 1] == refreshes[n]->Ok_0);
    }
}

proof fn lemma_ignored_press_removed(
    s: InteractionSession,
    refreshes: Seq<Result<ImageResult, FetchError>>,
    events: Seq<SessionEvent>,
    i: int,
)
    requires
        0 <= i < events.len(),
        events[i] matches SessionEvent::Press(p) && !press_matches(s, p),
    ensures
        replay_refreshes(s, refreshes, events.remove(i)) == replay_refreshes(
            s,
            refreshes,
            events,
        ),
    decreases events.len(),
{
    if i == 0 {
        assert(events.remove(0) =~= events.drop_first());
    } else {
        assert(events.remove(i)[0] == events[0]);
        assert(events.remove(i).drop_first() =~= events.drop_first().remove(i - 1));
        assert(events.drop_first()[i - 1] == events[i]);
        match events[0] {
            SessionEvent::TimedOut => {},
            SessionEvent::Press(p0) => {
                if !press_matches(s, p0) {
                    lemma_ignored_press_removed(s, refreshes, events.drop_first(), i - 1);
                } else if refreshes.len() == 0 {
                } else {
                    match refreshes[0] {
                        Err(_) => {},
                        Ok(_) => {
                            lemma_ignored_press_removed(
                                s,
                                refreshes.drop_first(),
                                events.drop_first(),
                                i - 1,
                            );
                        },
                    }
                }
            },
        }
    }
}

/// Law: a button press whose custom identifier does not match the session's
/// invocation identifier never triggers a refresh — its decision is to keep
/// waiting, and a session behaves exactly as if the press had never been
/// delivered.
pub proof fn lemma_foreign_identifier_never_refreshes(
    s: InteractionSession,
    initial: Result<ImageResult, FetchError>,
    refreshes: Seq<Result<ImageResult, FetchError>>,
    events: Seq<SessionEvent>,
    i: int,
)
    requires
        0 <= i < events.len(),
        events[i] matches SessionEvent::Press(p) && p.custom_id@ != dec_of(
            s.invocation_id as nat,
        ),
    ensures
        decision_of(s, events[i]) == Decision::Ignore,
        replay(s, initial, refreshes, events.remove(i)) == replay(s, initial, refreshes, events),
{
    lemma_ignored_press_removed(s, refreshes, events, i);
}

/// Law: a button press from a user other than the original invoker never
/// triggers a refresh — its decision is to keep waiting, and a session
/// behaves exactly as if the press had never been delivered.
pub proof fn lemma_foreign_presser_never_refreshes(
    s: InteractionSession,
    initial: Result<ImageResult, FetchError>,
    refreshes: Seq<Result<ImageResult, FetchError>>,
    events: Seq<SessionEvent>,
    i: int,
)
    requires
        0 <= i < events.len(),
        events[i] matches SessionEvent::Press(p) && p.presser_id != s.invoker_id,
    ensures
        decision_of(s, events[i]) == Decision::Ignore,
        replay(s, initial, refreshes, events.remove(i)) == replay(s, initial, refreshes, events),
{
    lemma_ignored_press_removed(s, refreshes, events, i);
}

proof fn lemma_replay_refreshes_stop_at_timeout(
    s: InteractionSession,
    refreshes: Seq<Result<ImageResult, FetchError>>,
    events: Seq<SessionEvent>,
    i: int,
)
    requires
        0 <= i < events.len(),
        events[i] is TimedOut,
    ensures
        replay_refreshes(s, refreshes, events.take(i + 1)) == replay_refreshes(
            s,
            refreshes,
            events,
        ),
    decreases events.len(),
{
    let cut = events.take(i + 1);
    assert(cut[0] == events[0]);
    if i == 0 {
    } else {
        assert(cut.drop_first() =~= events.drop_first().take(i));
        assert(events.drop_first()[i - 1] == events[i]);
        match events[0] {
            SessionEvent::TimedOut => {},
            SessionEvent::Press(p0) => {
                if !press_matches(s, p0) {
                    lemma_replay_refreshes_stop_at_timeout(s, refreshes, events.drop_first(), i - 1);
                } else if refreshes.len() == 0 {
                } else {
                    match refreshes[0] {
                        Err(_) => {},
                        Ok(_) => {
                            lemma_replay_refreshes_stop_at_timeout(
                                s,
                                refreshes.drop_first(),
                                events.drop_first(),
                                i - 1,
                            );
                        },
                    }
                }
            },
        }
    }
}

/// Law: the idle timeout ends the session — its decision is terminal, and
/// whatever is delivered after a timeout contributes no further fetches or
/// edits: the session's outcome is already fixed by the events up to and
/// including the timeout.
pub proof fn lemma_timeout_ends_session(
    s: InteractionSession,
    initial: Result<ImageResult, FetchError>,
    refreshes: Seq<Result<ImageResult, FetchError>>,
    events: Seq<SessionEvent>,
    i: int,
)
    requires
        0 <= i < events.len(),
        events[i] is TimedOut,
    ensures
        decision_of(s, events[i]) == Decision::Finish,
        replay(s, initial, refreshes, events.take(i + 1)) == replay(s, initial, refreshes, events),
{
    lemma_replay_refreshes_stop_at_timeout(s, refreshes, events, i);
}

} // verus!
