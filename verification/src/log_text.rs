use vstd::prelude::*;
use vstd::string::*;

verus! {

/// The most lines the on-screen log keeps; older lines scroll away.
pub const MAX_LOG_LINES: usize = 9;

/// The lines of the on-screen log, oldest first.
pub struct LogText(pub Vec<String>);

/// A message for the on-screen log.
pub struct LogEvent(pub String);

/// The log after `messages` arrive: the messages are added at the end and
/// only the last `MAX_LOG_LINES` lines are kept. When no message arrives
/// the log stays as it is.
pub open spec fn appended(lines: Seq<String>, messages: Seq<String>) -> Seq<String> {
    if messages.len() == 0 {
        lines
    } else {
        let all = lines + messages;
        if all.len() > MAX_LOG_LINES {
            all.subrange(all.len() - MAX_LOG_LINES, all.len() as int)
        } else {
            all
        }
    }
}

impl LogText {
    /// An empty log.
    pub fn new() -> (log: LogText)
        ensures
            log.0@ == Seq::<String>::empty(),
    {
        LogText(Vec::new())
    }

    /// Adds the messages that arrived in this frame, scrolling old lines away
    /// so that at most `MAX_LOG_LINES` remain.
    pub fn update_log(&mut self, messages: Vec<String>)
        ensures
            final(self).0@ == appended(old(self).0@, messages@),
            messages@.len() > 0 ==> final(self).0@.len() == (if old(self).0@.len() + messages@.len()
                > MAX_LOG_LINES {
                MAX_LOG_LINES as int
            } else {
                (old(self).0@.len() + messages@.len()) as int
            }),
            messages@.len() > 0 ==> final(self).0@ == (old(self).0@ + messages@).subrange(
                (old(self).0@ + messages@).len() - final(self).0@.len(),
                (old(self).0@ + messages@).len() as int,
            ),
            messages@.len() == 0 ==> final(self).0@ == old(self).0@,
    {
        if messages.len() == 0 {
            return;
        }
        let mut messages = messages;
        self.0.append(&mut messages);
        let len = self.0.len();
        if len > MAX_LOG_LINES {
            let kept = self.0.split_off(len - MAX_LOG_LINES);
            self.0 = kept;
        }
    }

    /// Empties the log, as a reset does.
    pub fn clear(&mut self)
        ensures
            final(self).0@ == Seq::<String>::empty(),
    {
        self.0.clear();
    }
}

/// After any message arrives the log holds at most `MAX_LOG_LINES` lines,
/// and its last line is the last message.
pub proof fn lemma_log_bounded(lines: Seq<String>, messages: Seq<String>)
    requires
        messages.len() > 0,
    ensures
        appended(lines, messages).len() <= MAX_LOG_LINES,
        appended(lines, messages).last() == messages.last(),
        messages.len() <= MAX_LOG_LINES ==> appended(lines, messages).subrange(
            appended(lines, messages).len() - messages.len(),
            appended(lines, messages).len() as int,
        ) == messages,
{
    let all = lines + messages;
    assert(all.last() == messages.last());
    if messages.len() <= MAX_LOG_LINES {
        let r = appended(lines, messages);
        assert(r.subrange(r.len() - messages.len(), r.len() as int) =~= messages);
    }
}

/// When messages arrive, the log becomes the last lines of the old log
/// followed by the messages, as many as fit: exactly the smaller of
/// `MAX_LOG_LINES` and the number of old lines and messages together. So an
/// old line only scrolls away when room is needed.
pub proof fn lemma_log_is_suffix(lines: Seq<String>, messages: Seq<String>)
    requires
        messages.len() > 0,
    ensures
        appended(lines, messages).len() == (if lines.len() + messages.len() > MAX_LOG_LINES {
            MAX_LOG_LINES as int
        } else {
            (lines.len() + messages.len()) as int
        }),
        appended(lines, messages) == (lines + messages).subrange(
            (lines + messages).len() - appended(lines, messages).len(),
            (lines + messages).len() as int,
        ),
{
    let all = lines + messages;
    if all.len() <= MAX_LOG_LINES {
        assert(all.subrange(0, all.len() as int) =~= all);
    }
}

/// A log that is not longer than `MAX_LOG_LINES` loses nothing when the
/// messages fit beside it.
pub proof fn lemma_log_keeps_all_that_fit(lines: Seq<String>, messages: Seq<String>)
    requires
        lines.len() + messages.len() <= MAX_LOG_LINES,
    ensures
        appended(lines, messages) == lines + messages,
{
}

impl LogEvent {
    /// The message logged when a player takes damage.
    pub fn took_damage() -> (e: LogEvent)
        ensures
            e.0@ == "you took damage\n"@,
    {
        LogEvent(String::from_str("you took damage\n"))
    }

    /// The message logged when a ball hits a player; `ball` names the ball.
    pub fn ball_hit_player(ball: &str) -> (e: LogEvent)
        ensures
            e.0@ == "ball "@ + ball@ + " and player\n"@,
    {
        let s = String::from_str("ball ");
        let s = s.concat(ball);
        let s = s.concat(" and player\n");
        LogEvent(s)
    }
}

} // verus!
