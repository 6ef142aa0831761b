//! Dual-mode logger: a single sink for diagnostics that either forwards
//! entries into a reader stream, once one was attached, or renders them
//! for the console. The attachment decision is made once and never
//! reverts.

use vstd::prelude::*;
use crate::channel::{make_unbounded_channel, send_on, try_recv_on};
use crate::console::{now_unix_micros, print_line};
use crate::text::{contains_seq, format_timestamp, lemma_concat_contains_suffix};

verus! {

/// Severity of a log entry.
#[derive(Clone, Copy, Debug, PartialEq, Eq, Structural)]
pub enum LogType {
    Info,
    Warning,
    Error,
    FatalError,
}

/// One structured diagnostic record, as handed to an attached reader.
#[derive(Debug)]
pub struct LogEvent {
    pub log_type: LogType,
    pub process: String,
    pub message: String,
    pub context: Option<String>,
}

/// The name under which a severity is rendered on the console.
pub open spec fn log_type_label(log_type: LogType) -> Seq<char> {
    match log_type {
        LogType::Info => "Info"@,
        LogType::Warning => "Warning"@,
        LogType::Error => "Error"@,
        LogType::FatalError => "FatalError"@,
    }
}

/// The severity's console name as a string slice.
pub fn log_type_label_str(log_type: LogType) -> (r: &'static str)
    ensures
        r@ == log_type_label(log_type),
{
    match log_type {
        LogType::Info => "Info",
        LogType::Warning => "Warning",
        LogType::Error => "Error",
        LogType::FatalError => "FatalError",
    }
}

/// The console rendering of one entry: a timestamp line with the
/// severity, a process line, a message line, and a context line when a
/// context is present.
pub open spec fn console_lines(
    timestamp: Seq<char>,
    log_type: LogType,
    process: Seq<char>,
    message: Seq<char>,
    context: Option<Seq<char>>,
) -> Seq<Seq<char>> {
    let head = seq![
        timestamp + seq![' '] + log_type_label(log_type),
        "Process: "@ + process,
        "Message: "@ + message,
    ];
    match context {
        Some(ctx) => head.push("Context: "@ + ctx),
        None => head,
    }
}

/// Renders one entry for the console, line by line, exactly as
/// `console_lines` states it.
pub fn format_console_lines(
    timestamp: &str,
    log_type: LogType,
    process: &str,
    message: &str,
    context: &Option<String>,
) -> (r: Vec<String>)
    ensures
        r@.len() == console_lines(timestamp@, log_type, process@, message@, spec_context_view(context)).len(),
        forall|i: int|
            0 <= i < r@.len() ==> r@[i]@ == console_lines(
                timestamp@,
                log_type,
                process@,
                message@,
                spec_context_view(context),
            )[i],
{
    let mut head = timestamp.to_owned();
    head.push(' ');
    head.push_str(log_type_label_str(log_type));

    let mut process_line = "Process: ".to_owned();
    process_line.push_str(process);

    let mut message_line = "Message: ".to_owned();
    message_line.push_str(message);

    let mut lines: Vec<String> = Vec::new();
    lines.push(head);
    lines.push(process_line);
    lines.push(message_line);

    match context {
        Some(ctx) => {
            let mut context_line = "Context: ".to_owned();
            context_line.push_str(ctx.as_str());
            lines.push(context_line);
        },
        None => {},
    }
    lines
}

/// The context of an entry as the character sequence it holds, if any.
pub open spec fn spec_context_view(context: &Option<String>) -> Option<Seq<char>> {
    match context {
        Some(ctx) => Some(ctx@),
        None => None,
    }
}

/// Law: the console rendering of every entry carries the process name
/// and the message verbatim, whatever the timestamp, severity and
/// context are.
pub proof fn lemma_console_lines_carry_process_and_message(
    timestamp: Seq<char>,
    log_type: LogType,
    process: Seq<char>,
    message: Seq<char>,
    context: Option<Seq<char>>,
)
    ensures
        contains_seq(console_lines(timestamp, log_type, process, message, context)[1], process),
        contains_seq(console_lines(timestamp, log_type, process, message, context)[2], message),
{
    lemma_concat_contains_suffix("Process: "@, process);
    lemma_concat_contains_suffix("Message: "@, message);
}

/// The receive half of an attached reader stream: pulls the entries that
/// the logger forwarded, in the order they were logged.
pub struct MyLoggerReader {
    rx: tokio::sync::mpsc::UnboundedReceiver<LogEvent>,
}

impl MyLoggerReader {
    /// Wraps the receive half of a freshly made stream.
    pub fn new(rx: tokio::sync::mpsc::UnboundedReceiver<LogEvent>) -> Self {
        MyLoggerReader { rx }
    }

    /// The next forwarded entry, if one is queued; never blocks.
    pub fn try_get_next(&mut self) -> Option<LogEvent> {
        try_recv_on(&mut self.rx)
    }
}

/// The dual-mode logger itself. `tx` holds the send half of the reader
/// stream once a reader was attached; before that every entry goes to
/// the console.
pub struct MyLogger {
    tx: Option<tokio::sync::mpsc::UnboundedSender<LogEvent>>,
}

impl MyLogger {
    /// Whether a reader stream was ever attached to this logger.
    pub closed spec fn has_reader(&self) -> bool {
        self.tx is Some
    }

    /// A fresh logger; no reader is attached, so entries go to the console.
    pub fn new() -> (r: Self)
        ensures
            !r.has_reader(),
    {
        MyLogger { tx: None }
    }

    /// Attaches a reader: makes a fresh stream, keeps the send half and
    /// hands the receive half out. From here on every entry is
    /// forwarded, never printed; the transition is never reverted.
    pub fn get_reader(&mut self) -> (r: MyLoggerReader)
        ensures
            final(self).has_reader(),
    {
        let (tx, rx) = make_unbounded_channel();
        self.tx = Some(tx);
        MyLoggerReader::new(rx)
    }

    /// Records one entry. With a reader attached the entry goes into the
    /// reader stream, best effort: if the reader is gone, a diagnostic
    /// line goes to the console instead. With no reader the entry is
    /// rendered on the console. The caller never observes a failure.
    pub fn write_log(
        &self,
        log_type: LogType,
        process: String,
        message: String,
        context: Option<String>,
    ) {
        match &self.tx {
            Some(tx) => {
                let event = LogEvent { log_type, process, message, context };
                match send_on(tx, event) {
                    Ok(()) => {},
                    Err(_rejected) => {
                        print_line("Somehow we could not send log event to sender");
                    },
                }
            },
            None => {
                let timestamp = format_timestamp(now_unix_micros());
                let lines = format_console_lines(
                    timestamp.as_str(),
                    log_type,
                    process.as_str(),
                    message.as_str(),
                    &context,
                );
                let mut i: usize = 0;
                while i < lines.len()
                    decreases lines.len() - i,
                {
                    print_line(lines[i].as_str());
                    i = i + 1;
                }
            },
        }
    }
}

} // verus!
