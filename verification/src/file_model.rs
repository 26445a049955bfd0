//! What a log call does to the log file.
//!
//! The file is modelled by its text, or by `None` while it does not exist.
//! Carrying out an action changes it as the file system would: creating
//! leaves an empty file, opening for append leaves the text alone, and a
//! write puts its text at the end.

use vstd::prelude::*;
use vstd::seq_lib::lemma_multiset_commutative;
use crate::clock::TimeOfDay;
use crate::entry::{decimal, decimal_is_digits, entry_line, time_stamp, APP_TAG};
use crate::severity::level_label;
use crate::writer::{
    create_failure_text, step_of, ActionView, EventView, LogCall, OpenMode, Phase,
};

verus! {

/// The file after the caller has carried out an action with success.
pub open spec fn carried_out(file: Option<Seq<char>>, action: ActionView) -> Option<Seq<char>> {
    match action {
        ActionView::Open(OpenMode::Create) => Some(Seq::empty()),
        ActionView::Write(text) => match file {
            Some(contents) => Some(contents + text),
            None => None,
        },
        _ => file,
    }
}

/// The file after one whole call during which nothing fails and the file
/// comes open at `time`.
pub open spec fn after_call(
    file: Option<Seq<char>>,
    message: Seq<char>,
    level: u8,
    time: TimeOfDay,
) -> Option<Seq<char>> {
    let probed = step_of(LogCall::fresh(message, level), EventView::Probed(file is Some), time);
    let opened = step_of(probed->Some_0.0, EventView::Opened, time);
    carried_out(carried_out(file, probed->Some_0.1), opened->Some_0.1)
}

/// The file after a call during which the file cannot be opened.
pub open spec fn after_failed_open(
    file: Option<Seq<char>>,
    message: Seq<char>,
    level: u8,
    cause: Seq<char>,
    time: TimeOfDay,
) -> Option<Seq<char>> {
    let probed = step_of(LogCall::fresh(message, level), EventView::Probed(file is Some), time);
    let failed = step_of(probed->Some_0.0, EventView::OpenFailed(cause), time);
    carried_out(file, failed->Some_0.1)
}

/// How many line feeds a text holds. A text made of whole lines has as many
/// lines.
pub open spec fn line_feeds(text: Seq<char>) -> nat {
    text.to_multiset().count('\n')
}

/// The line feeds of two texts put together are those of the one and those
/// of the other.
pub proof fn line_feeds_of_concat(a: Seq<char>, b: Seq<char>)
    ensures
        line_feeds(a + b) == line_feeds(a) + line_feeds(b),
{
    lemma_multiset_commutative(a, b);
}

/// A text in which no line feed stands holds none.
pub proof fn line_feeds_of_plain(text: Seq<char>)
    requires
        forall|i: int| 0 <= i < text.len() ==> text[i] != '\n',
    ensures
        line_feeds(text) == 0,
{
    text.to_multiset_ensures();
    if line_feeds(text) > 0 {
        assert(text.contains('\n'));
    }
}

/// A line feed by itself counts as one.
proof fn line_feed_alone()
    ensures
        line_feeds(seq!['\n']) == 1,
{
    broadcast use vstd::multiset::group_multiset_axioms;

    let nothing = Seq::<char>::empty();
    nothing.to_multiset_ensures();
    line_feeds_of_plain(nothing);
    assert(nothing.push('\n') =~= seq!['\n']);
}

/// An entry for a message without a line feed is one line: its only line
/// feed is its last character.
pub proof fn entry_is_one_line(message: Seq<char>, level: u8, time: TimeOfDay)
    requires
        forall|i: int| 0 <= i < message.len() ==> message[i] != '\n',
    ensures
        line_feeds(entry_line(message, level, time)) == 1,
        entry_line(message, level, time).last() == '\n',
{
    reveal_strlit("[");
    reveal_strlit("Rogue Legacy Editor");
    reveal_strlit("] [");
    reveal_strlit(":");
    reveal_strlit("]: ");
    reveal_strlit("\n");
    reveal_strlit("INFO");
    reveal_strlit("WARNING");
    reveal_strlit("ERROR");
    decimal_is_digits(time.hour as nat);
    decimal_is_digits(time.minute as nat);
    decimal_is_digits(time.second as nat);
    let hour = decimal(time.hour as nat);
    let minute = decimal(time.minute as nat);
    let second = decimal(time.second as nat);
    line_feeds_of_plain("["@);
    line_feeds_of_plain(APP_TAG@);
    line_feeds_of_plain("] ["@);
    line_feeds_of_plain(":"@);
    line_feeds_of_plain("]: "@);
    line_feeds_of_plain(hour);
    line_feeds_of_plain(minute);
    line_feeds_of_plain(second);
    line_feeds_of_plain(level_label(level));
    line_feeds_of_plain(message);
    line_feeds_of_concat(hour, ":"@);
    line_feeds_of_concat(hour + ":"@, minute);
    line_feeds_of_concat(hour + ":"@ + minute, ":"@);
    line_feeds_of_concat(hour + ":"@ + minute + ":"@, second);
    let stamp = time_stamp(time);
    line_feeds_of_concat("["@, APP_TAG@);
    line_feeds_of_concat("["@ + APP_TAG@, "] ["@);
    line_feeds_of_concat("["@ + APP_TAG@ + "] ["@, stamp);
    line_feeds_of_concat("["@ + APP_TAG@ + "] ["@ + stamp, "] ["@);
    line_feeds_of_concat("["@ + APP_TAG@ + "] ["@ + stamp + "] ["@, level_label(level));
    line_feeds_of_concat(
        "["@ + APP_TAG@ + "] ["@ + stamp + "] ["@ + level_label(level),
        "]: "@,
    );
    line_feeds_of_concat(
        "["@ + APP_TAG@ + "] ["@ + stamp + "] ["@ + level_label(level) + "]: "@,
        message,
    );
    let head = "["@ + APP_TAG@ + "] ["@ + stamp + "] ["@ + level_label(level) + "]: "@ + message;
    line_feeds_of_concat(head, "\n"@);
    line_feed_alone();
    assert("\n"@ =~= seq!['\n']);
}

/// A call on a file that does not exist creates it, and the file then holds
/// the entry and nothing else.
pub proof fn first_call_creates_the_file(message: Seq<char>, level: u8, time: TimeOfDay)
    ensures
        after_call(None, message, level, time) == Some(entry_line(message, level, time)),
{
    assert(Seq::<char>::empty() + entry_line(message, level, time) =~= entry_line(
        message,
        level,
        time,
    ));
}

/// A call on a file that exists puts the entry at its end and leaves what
/// was there as it was: the file is never truncated.
pub proof fn later_call_appends(
    contents: Seq<char>,
    message: Seq<char>,
    level: u8,
    time: TimeOfDay,
)
    ensures
        after_call(Some(contents), message, level, time) == Some(
            contents + entry_line(message, level, time),
        ),
        contents.is_prefix_of(after_call(Some(contents), message, level, time)->Some_0),
{
}

/// A call with a message that holds no line feed adds exactly one line to
/// the file, whether the file was there or not.
pub proof fn call_adds_one_line(
    file: Option<Seq<char>>,
    message: Seq<char>,
    level: u8,
    time: TimeOfDay,
)
    requires
        forall|i: int| 0 <= i < message.len() ==> message[i] != '\n',
    ensures
        after_call(file, message, level, time) is Some,
        line_feeds(after_call(file, message, level, time)->Some_0) == match file {
            Some(contents) => line_feeds(contents) + 1,
            None => 1,
        },
        after_call(file, message, level, time)->Some_0.last() == '\n',
{
    entry_is_one_line(message, level, time);
    match file {
        Some(contents) => {
            later_call_appends(contents, message, level, time);
            line_feeds_of_concat(contents, entry_line(message, level, time));
        },
        None => {
            first_call_creates_the_file(message, level, time);
        },
    }
}

/// Logging is not idempotent: the same call made twice leaves the entry in
/// the file twice, one after the other.
pub proof fn repeated_call_repeats_the_entry(
    file: Option<Seq<char>>,
    message: Seq<char>,
    level: u8,
    time: TimeOfDay,
)
    ensures
        after_call(after_call(file, message, level, time), message, level, time) == Some(
            after_call(file, message, level, time)->Some_0 + entry_line(message, level, time),
        ),
        after_call(after_call(file, message, level, time), message, level, time) != after_call(
            file,
            message,
            level,
            time,
        ),
{
    let once = after_call(file, message, level, time);
    match file {
        Some(contents) => later_call_appends(contents, message, level, time),
        None => first_call_creates_the_file(message, level, time),
    }
    later_call_appends(once->Some_0, message, level, time);
    reveal_strlit("\n");
    let twice = after_call(once, message, level, time);
    assert(twice->Some_0.len() == once->Some_0.len() + entry_line(message, level, time).len());
    assert(entry_line(message, level, time).len() >= 1);
}

/// A call during which the file cannot be opened leaves the file as it was:
/// absent if it was to be created, untouched if it was there. The call is
/// then over, and only a failed creation ends it loudly.
pub proof fn failed_open_writes_nothing(
    file: Option<Seq<char>>,
    message: Seq<char>,
    level: u8,
    cause: Seq<char>,
    time: TimeOfDay,
)
    ensures
        after_failed_open(file, message, level, cause, time) == file,
        ({
            let probed = step_of(
                LogCall::fresh(message, level),
                EventView::Probed(file is Some),
                time,
            );
            let failed = step_of(probed->Some_0.0, EventView::OpenFailed(cause), time);
            &&& failed is Some
            &&& failed->Some_0.0.phase == Phase::Closed
            &&& file is None <==> failed->Some_0.1 == ActionView::Abort(create_failure_text(cause))
            &&& file is None <==> failed->Some_0.1 is Abort
        }),
{
}

} // verus!
