//! The two line formats.

use crate::level::Level;
use crate::record::{Record, ThreadInfo};
use vstd::prelude::*;

verus! {

/// `serde_json::Error`, carried through and never looked into.
#[verifier::external_type_specification]
#[verifier::external_body]
pub struct ExJsonError(serde_json::Error);

/// Whether `s` is free of control characters, those below U+0020. Such a
/// text holds no line break.
pub open spec fn no_control(s: Seq<char>) -> bool {
    forall|i: int| 0 <= i < s.len() ==> (#[trigger] s[i]) as u32 >= 0x20
}

/// Joining two texts free of control characters gives another.
pub proof fn lemma_no_control_concat(a: Seq<char>, b: Seq<char>)
    requires
        no_control(a),
        no_control(b),
    ensures
        no_control(a + b),
{
    assert forall|i: int| 0 <= i < (a + b).len() implies (#[trigger] (a + b)[i]) as u32 >= 0x20 by {
        if i < a.len() {
            assert((a + b)[i] == a[i]);
        } else {
            assert((a + b)[i] == b[i - a.len()]);
        }
    }
}

/// The JSON string literal that `serde_json` writes for a string: the
/// opening quote, the characters with JSON's escapes applied, the closing
/// quote.
pub uninterp spec fn json_text(s: Seq<char>) -> Seq<char>;

/// `serde_json::to_string` on a string slice. Trusted: the call succeeds,
/// since the serializer reports only errors of its writer and the writer is
/// a byte vector in memory; the text it returns depends on the characters
/// of `s` alone, which is what `json_text` names; and that text holds no
/// control character, since JSON has each of them escaped inside a string.
#[verifier::external_body]
fn json_string(s: &str) -> (r: Result<String, serde_json::Error>)
    ensures
        r is Ok,
        r->Ok_0@ == json_text(s@),
        no_control(r->Ok_0@),
{
    serde_json::to_string(s)
}

/// The line for a terminal: timestamp, level name and target in square
/// brackets, a space, the message.
pub open spec fn local_line(
    timestamp: Seq<char>,
    level: Level,
    target: Seq<char>,
    message: Seq<char>,
) -> Seq<char> {
    "["@ + timestamp + " "@ + level.name() + " "@ + target + "] "@ + message
}

/// A JSON object on one line, built from six values that are JSON text
/// already. The keys come in this order and `@version` is the number 1.
pub open spec fn structured_object(
    timestamp: Seq<char>,
    logger: Seq<char>,
    thread: Seq<char>,
    level: Seq<char>,
    message: Seq<char>,
    finn_app: Seq<char>,
) -> Seq<char> {
    "{\"@version\":1,\"@timestamp\":"@ + timestamp + ",\"logger\":"@ + logger + ",\"thread\":"@
        + thread + ",\"level\":"@ + level + ",\"message\":"@ + message + ",\"finn_app\":"@
        + finn_app + "}"@
}

/// The line for ingestion: `structured_object` over the JSON string
/// literals of the six values.
pub open spec fn structured_line(
    timestamp: Seq<char>,
    level: Level,
    target: Seq<char>,
    message: Seq<char>,
    finn_app: Seq<char>,
    thread: Seq<char>,
) -> Seq<char> {
    structured_object(
        json_text(timestamp),
        json_text(target),
        json_text(thread),
        json_text(level.name()),
        json_text(message),
        json_text(finn_app),
    )
}

pub fn format_log_local(timestamp: &str, record: &Record) -> (line: String)
    ensures
        line@ == local_line(timestamp@, record.level, record.target@, record.message@),
{
    let mut line = String::new();
    line.append("[");
    line.append(timestamp);
    line.append(" ");
    line.append(record.level.as_str());
    line.append(" ");
    line.append(record.target);
    line.append("] ");
    line.append(record.message);
    line
}

/// An object built from values free of control characters is free of them
/// too: the keys and the punctuation between the values hold none.
pub proof fn lemma_object_has_no_control(
    timestamp: Seq<char>,
    logger: Seq<char>,
    thread: Seq<char>,
    level: Seq<char>,
    message: Seq<char>,
    finn_app: Seq<char>,
)
    requires
        no_control(timestamp),
        no_control(logger),
        no_control(thread),
        no_control(level),
        no_control(message),
        no_control(finn_app),
    ensures
        no_control(structured_object(timestamp, logger, thread, level, message, finn_app)),
{
    reveal_strlit("{\"@version\":1,\"@timestamp\":");
    reveal_strlit(",\"logger\":");
    reveal_strlit(",\"thread\":");
    reveal_strlit(",\"level\":");
    reveal_strlit(",\"message\":");
    reveal_strlit(",\"finn_app\":");
    reveal_strlit("}");
    let a = "{\"@version\":1,\"@timestamp\":"@;
    let b = a + timestamp;
    lemma_no_control_concat(a, timestamp);
    let c = b + ",\"logger\":"@;
    lemma_no_control_concat(b, ",\"logger\":"@);
    let d = c + logger;
    lemma_no_control_concat(c, logger);
    let e = d + ",\"thread\":"@;
    lemma_no_control_concat(d, ",\"thread\":"@);
    let f = e + thread;
    lemma_no_control_concat(e, thread);
    let g = f + ",\"level\":"@;
    lemma_no_control_concat(f, ",\"level\":"@);
    let h = g + level;
    lemma_no_control_concat(g, level);
    let i = h + ",\"message\":"@;
    lemma_no_control_concat(h, ",\"message\":"@);
    let j = i + message;
    lemma_no_control_concat(i, message);
    let k = j + ",\"finn_app\":"@;
    lemma_no_control_concat(j, ",\"finn_app\":"@);
    let l = k + finn_app;
    lemma_no_control_concat(k, finn_app);
    lemma_no_control_concat(l, "}"@);
}

/// Joins six JSON values into the object. Nothing is escaped here: each
/// argument must be JSON text as it stands.
pub fn assemble_structured(
    timestamp: &str,
    logger: &str,
    thread: &str,
    level: &str,
    message: &str,
    finn_app: &str,
) -> (line: String)
    ensures
        line@ == structured_object(timestamp@, logger@, thread@, level@, message@, finn_app@),
        no_control(timestamp@) && no_control(logger@) && no_control(thread@) && no_control(level@)
            && no_control(message@) && no_control(finn_app@) ==> no_control(line@),
{
    let mut line = String::new();
    line.append("{\"@version\":1,\"@timestamp\":");
    line.append(timestamp);
    line.append(",\"logger\":");
    line.append(logger);
    line.append(",\"thread\":");
    line.append(thread);
    line.append(",\"level\":");
    line.append(level);
    line.append(",\"message\":");
    line.append(message);
    line.append(",\"finn_app\":");
    line.append(finn_app);
    line.append("}");
    proof {
        if no_control(timestamp@) && no_control(logger@) && no_control(thread@) && no_control(
            level@,
        ) && no_control(message@) && no_control(finn_app@) {
            lemma_object_has_no_control(
                timestamp@,
                logger@,
                thread@,
                level@,
                message@,
                finn_app@,
            );
        }
    }
    line
}

/// The JSON string literal for `s`.
pub fn json_quote(s: &str) -> (r: String)
    ensures
        r@ == json_text(s@),
        no_control(r@),
{
    json_string(s).unwrap()
}

pub fn format_log_fiaas(
    timestamp: &str,
    record: &Record,
    finn_app: &str,
    thread: &ThreadInfo,
) -> (line: String)
    ensures
        line@ == structured_line(
            timestamp@,
            record.level,
            record.target@,
            record.message@,
            finn_app@,
            thread.label(),
        ),
        no_control(line@),
{
    let label = thread.to_label();
    let timestamp_json = json_quote(timestamp);
    let logger_json = json_quote(record.target);
    let thread_json = json_quote(label.as_str());
    let level_json = json_quote(record.level.as_str());
    let message_json = json_quote(record.message);
    let finn_app_json = json_quote(finn_app);
    assemble_structured(
        timestamp_json.as_str(),
        logger_json.as_str(),
        thread_json.as_str(),
        level_json.as_str(),
        message_json.as_str(),
        finn_app_json.as_str(),
    )
}

} // verus!
