use vstd::prelude::*;
use crate::clock::{file_name, file_name_text, local_now, timestamp, timestamp_text, LocalTime};
use crate::level::LogLevel;
use crate::text::{
    decimal, hexadecimal, push_char, push_decimal, push_hexadecimal, push_signed_decimal,
    signed_decimal,
};

verus! {

/// One typed value of a record. Each variant fixes the kind and width of its
/// value, so a value of the wrong kind is rejected when the caller is built.
pub enum Fragment {
    Str(String),
    Bool(bool),
    Char(char),
    I8(i8),
    I16(i16),
    I32(i32),
    I64(i64),
    U8(u8),
    U16(u16),
    U32(u32),
    U64(u64),
    /// Uppercase hexadecimal with a `0x` prefix.
    Hex8(u8),
    Hex16(u16),
    Hex32(u32),
    Hex64(u64),
    /// A memory address, in lowercase hexadecimal with a `0x` prefix.
    Ptr(usize),
}

/// `0x` followed by the hexadecimal digits of `n`.
pub open spec fn prefixed_hex(n: nat, upper: bool) -> Seq<char> {
    "0x"@ + hexadecimal(n, upper)
}

/// The text of one fragment.
pub open spec fn fragment_text(f: Fragment) -> Seq<char> {
    match f {
        Fragment::Str(s) => s@,
        Fragment::Bool(b) => if b { "true"@ } else { "false"@ },
        Fragment::Char(c) => seq![c],
        Fragment::I8(v) => signed_decimal(v as int),
        Fragment::I16(v) => signed_decimal(v as int),
        Fragment::I32(v) => signed_decimal(v as int),
        Fragment::I64(v) => signed_decimal(v as int),
        Fragment::U8(v) => decimal(v as nat),
        Fragment::U16(v) => decimal(v as nat),
        Fragment::U32(v) => decimal(v as nat),
        Fragment::U64(v) => decimal(v as nat),
        Fragment::Hex8(v) => prefixed_hex(v as nat, true),
        Fragment::Hex16(v) => prefixed_hex(v as nat, true),
        Fragment::Hex32(v) => prefixed_hex(v as nat, true),
        Fragment::Hex64(v) => prefixed_hex(v as nat, true),
        Fragment::Ptr(v) => prefixed_hex(v as nat, false),
    }
}

/// The text of a list of fragments: each one followed by a single space.
pub open spec fn fragments_text(fs: Seq<Fragment>) -> Seq<char>
    decreases fs.len(),
{
    if fs.len() == 0 {
        Seq::empty()
    } else {
        fragments_text(fs.drop_last()) + fragment_text(fs.last()) + " "@
    }
}

/// One output line: `<timestamp> | <level> | <body>` and a newline.
pub open spec fn line_text(ts: Seq<char>, level_repr: Seq<char>, body: Seq<char>) -> Seq<char> {
    ts + " | "@ + level_repr + " | "@ + body + "\n"@
}

/// A console line, wrapped in the level's color and a reset when colors are on.
pub open spec fn colored(use_colors: bool, level: LogLevel, line: Seq<char>) -> Seq<char> {
    if use_colors {
        level.color_text() + line + "\x1b[0m"@
    } else {
        line
    }
}

/// The text of an optional string.
pub open spec fn text_of(o: Option<String>) -> Option<Seq<char>> {
    match o {
        Some(s) => Some(s@),
        None => None,
    }
}

/// What a logger holds, as plain values.
pub struct LoggerState {
    /// The text of the record in flight.
    pub buffer: Seq<char>,
    /// The level of the record in flight.
    pub level: LogLevel,
    pub console_threshold: LogLevel,
    pub file_threshold: LogLevel,
    pub use_colors: bool,
    pub include_date: bool,
    pub use_icons_in_file: bool,
    /// The log file, present exactly while file logging is enabled.
    pub log_file_path: Option<Seq<char>>,
}

/// The state of a freshly made logger.
pub open spec fn initial_state() -> LoggerState {
    LoggerState {
        buffer: Seq::empty(),
        level: LogLevel::Info,
        console_threshold: LogLevel::Verbose,
        file_threshold: LogLevel::Verbose,
        use_colors: true,
        include_date: true,
        use_icons_in_file: false,
        log_file_path: None,
    }
}

impl LoggerState {
    /// Text added to the record in flight.
    pub open spec fn appended(self, text: Seq<char>) -> LoggerState {
        LoggerState { buffer: self.buffer + text, ..self }
    }

    /// The record in flight at another level.
    pub open spec fn with_level(self, level: LogLevel) -> LoggerState {
        LoggerState { level, ..self }
    }

    /// After a flush: empty buffer, level back to `Info`.
    pub open spec fn flushed(self) -> LoggerState {
        LoggerState { buffer: Seq::empty(), level: LogLevel::Info, ..self }
    }

    /// A whole record built on this state: its level set, then its fragments appended.
    pub open spec fn recorded(self, level: LogLevel, fs: Seq<Fragment>) -> LoggerState {
        self.with_level(level).appended(fragments_text(fs))
    }

    /// The console line that a flush at time `t` writes, if any.
    pub open spec fn console_line(self, t: LocalTime) -> Option<Seq<char>> {
        if self.level.rank() >= self.console_threshold.rank() {
            Some(
                colored(
                    self.use_colors,
                    self.level,
                    line_text(timestamp_text(t, self.include_date), self.level.label_text(), self.buffer),
                ),
            )
        } else {
            None
        }
    }

    /// The file line that a flush at time `t` writes, if any. The file sink is
    /// gated by its own threshold, independently of the console's.
    pub open spec fn file_line(self, t: LocalTime) -> Option<Seq<char>> {
        if self.log_file_path.is_some() && self.level.rank() >= self.file_threshold.rank() {
            let repr = if self.use_icons_in_file {
                self.level.icon_text()
            } else {
                self.level.label_text()
            };
            Some(line_text(timestamp_text(t, self.include_date), repr, self.buffer))
        } else {
            None
        }
    }

    /// File logging switched on at time `t`; a file already open stays as it is.
    pub open spec fn enabled_at(self, t: LocalTime) -> LoggerState {
        if self.log_file_path.is_some() {
            self
        } else {
            LoggerState { log_file_path: Some(file_name_text(t)), ..self }
        }
    }

    /// The file that switching file logging on at time `t` creates: none when
    /// it is on already.
    pub open spec fn file_to_create(self, t: LocalTime) -> Option<Seq<char>> {
        if self.log_file_path.is_some() {
            None
        } else {
            Some(file_name_text(t))
        }
    }

    /// File logging switched off.
    pub open spec fn disabled(self) -> LoggerState {
        LoggerState { log_file_path: None, ..self }
    }
}

/// The lines that one flush produced, for the caller to write out.
pub struct LogOutput {
    /// The line for standard output, when the console threshold let it through.
    pub console: Option<String>,
    /// The line for the log file, when file logging is on and its threshold let it through.
    pub file: Option<String>,
}

/// A leveled logger: the record in flight and the configuration of both sinks.
/// The log file itself is held by the caller, under the path kept here.
pub struct Logger {
    buffer: String,
    current_level: LogLevel,
    pub console_threshold: LogLevel,
    pub file_threshold: LogLevel,
    pub use_colors: bool,
    pub include_date: bool,
    pub use_icons_in_file: bool,
    log_file_path: Option<String>,
}

impl View for Logger {
    type V = LoggerState;

    closed spec fn view(&self) -> LoggerState {
        LoggerState {
            buffer: self.buffer@,
            level: self.current_level,
            console_threshold: self.console_threshold,
            file_threshold: self.file_threshold,
            use_colors: self.use_colors,
            include_date: self.include_date,
            use_icons_in_file: self.use_icons_in_file,
            log_file_path: text_of(self.log_file_path),
        }
    }
}

impl Logger {
    /// A logger at `Info`, both thresholds at `Verbose`, colors and dates on,
    /// labels in the file, file logging off.
    pub fn new() -> (r: Logger)
        ensures
            r@ == initial_state(),
    {
        Logger {
            buffer: String::new(),
            current_level: LogLevel::Info,
            console_threshold: LogLevel::Verbose,
            file_threshold: LogLevel::Verbose,
            use_colors: true,
            include_date: true,
            use_icons_in_file: false,
            log_file_path: None,
        }
    }

    /// Adds a fragment's text and a space to the record in flight.
    pub fn append(&mut self, value: Fragment)
        ensures
            final(self)@ == old(self)@.appended(fragment_text(value) + " "@),
    {
        self.append_ref(&value);
    }

    fn append_ref(&mut self, value: &Fragment)
        ensures
            final(self)@ == old(self)@.appended(fragment_text(*value) + " "@),
    {
        push_fragment(&mut self.buffer, value);
        self.buffer.append(" ");
        assert(self@.buffer =~= old(self)@.buffer + (fragment_text(*value) + " "@));
    }

    /// Adds `true ` or `false `.
    pub fn append_bool(&mut self, value: bool)
        ensures
            final(self)@ == old(self)@.appended(if value { "true "@ } else { "false "@ }),
    {
        self.buffer.append(if value { "true " } else { "false " });
    }

    /// Adds the value in uppercase hexadecimal, `0x` first, and a space.
    pub fn append_hex(&mut self, value: u64)
        ensures
            final(self)@ == old(self)@.appended(prefixed_hex(value as nat, true) + " "@),
    {
        push_prefixed_hex(&mut self.buffer, value, true);
        self.buffer.append(" ");
        assert(self@.buffer =~= old(self)@.buffer + (prefixed_hex(value as nat, true) + " "@));
    }

    /// Clears the record in flight.
    fn reset(&mut self)
        ensures
            final(self)@ == old(self)@.flushed(),
    {
        self.buffer = String::new();
        self.current_level = LogLevel::Info;
    }

    /// Flushes the record in flight with the time `now`: formats the console
    /// line and the file line that the thresholds let through, then clears the
    /// record whatever was written.
    pub fn print_at(&mut self, now: &LocalTime) -> (r: LogOutput)
        ensures
            text_of(r.console) == old(self)@.console_line(*now),
            text_of(r.file) == old(self)@.file_line(*now),
            final(self)@ == old(self)@.flushed(),
    {
        let ts = timestamp(now, self.include_date);
        let console = if self.current_level.at_least(&self.console_threshold) {
            let mut s = String::new();
            if self.use_colors {
                s.append(self.current_level.color());
            }
            push_line(&mut s, &ts, self.current_level.label(), &self.buffer);
            if self.use_colors {
                s.append("\x1b[0m");
            }
            proof {
                let line = line_text(ts@, self.current_level.label_text(), self.buffer@);
                assert(s@ =~= colored(self.use_colors, self.current_level, line));
            }
            Some(s)
        } else {
            None
        };
        let file = if self.log_file_path.is_some() && self.current_level.at_least(&self.file_threshold) {
            let repr = if self.use_icons_in_file {
                self.current_level.icon()
            } else {
                self.current_level.label()
            };
            let mut s = String::new();
            push_line(&mut s, &ts, repr, &self.buffer);
            assert(s@ =~= line_text(ts@, repr@, self.buffer@));
            Some(s)
        } else {
            None
        };
        self.reset();
        LogOutput { console, file }
    }

    /// Flushes the record in flight with the current local time.
    pub fn print(&mut self) -> (r: LogOutput)
        ensures
            final(self)@ == old(self)@.flushed(),
            exists|t: LocalTime|
                #![trigger old(self)@.console_line(t)]
                t.wf() && text_of(r.console) == old(self)@.console_line(t) && text_of(r.file)
                    == old(self)@.file_line(t),
    {
        let now = local_now();
        let r = self.print_at(&now);
        assert(now.wf() && text_of(r.console) == old(self)@.console_line(now));
        r
    }

    /// Sets the level of the record in flight.
    pub fn set_level(&mut self, level: LogLevel)
        ensures
            final(self)@ == old(self)@.with_level(level),
    {
        self.current_level = level;
    }

    /// Sets the least level that reaches the console.
    pub fn set_console_threshold(&mut self, level: LogLevel)
        ensures
            final(self)@ == (LoggerState { console_threshold: level, ..old(self)@ }),
    {
        self.console_threshold = level;
    }

    /// Sets the least level that reaches the log file.
    pub fn set_file_threshold(&mut self, level: LogLevel)
        ensures
            final(self)@ == (LoggerState { file_threshold: level, ..old(self)@ }),
    {
        self.file_threshold = level;
    }

    /// Turns colors on the console on or off.
    pub fn set_use_colors(&mut self, on: bool)
        ensures
            final(self)@ == (LoggerState { use_colors: on, ..old(self)@ }),
    {
        self.use_colors = on;
    }

    /// Turns the date in timestamps on or off.
    pub fn set_include_date(&mut self, on: bool)
        ensures
            final(self)@ == (LoggerState { include_date: on, ..old(self)@ }),
    {
        self.include_date = on;
    }

    /// Chooses icons rather than labels for the level in the file.
    pub fn set_use_icons_in_file(&mut self, on: bool)
        ensures
            final(self)@ == (LoggerState { use_icons_in_file: on, ..old(self)@ }),
    {
        self.use_icons_in_file = on;
    }

    /// Switches file logging on at time `now`. When it was off, the new file's
    /// name is returned for the caller to create; when it was on, nothing
    /// changes and nothing is returned.
    pub fn enable_file_logging_at(&mut self, now: &LocalTime) -> (r: Option<String>)
        ensures
            final(self)@ == old(self)@.enabled_at(*now),
            text_of(r) == old(self)@.file_to_create(*now),
    {
        if self.log_file_path.is_none() {
            let name = file_name(now);
            let kept = name.clone();
            self.log_file_path = Some(kept);
            Some(name)
        } else {
            None
        }
    }

    /// Switches file logging on with the current local time, as
    /// `enable_file_logging_at` does.
    pub fn enable_file_logging(&mut self) -> (r: Option<String>)
        ensures
            old(self)@.log_file_path.is_some() ==> final(self)@ == old(self)@ && r.is_none(),
            old(self)@.log_file_path.is_none() ==> exists|t: LocalTime|
                #![trigger old(self)@.enabled_at(t)]
                t.wf() && final(self)@ == old(self)@.enabled_at(t) && text_of(r) == Some(
                    file_name_text(t),
                ),
    {
        let now = local_now();
        let r = self.enable_file_logging_at(&now);
        assert(now.wf() && final(self)@ == old(self)@.enabled_at(now));
        r
    }

    /// Switches file logging off; the caller closes the file. Doing so while
    /// it is off changes nothing.
    pub fn disable_file_logging(&mut self)
        ensures
            final(self)@ == old(self)@.disabled(),
    {
        self.log_file_path = None;
    }

    /// One whole record at time `now`: sets its level, appends its fragments
    /// in order, and flushes it.
    pub fn log_print_at(&mut self, level: LogLevel, fragments: &Vec<Fragment>, now: &LocalTime) -> (r: LogOutput)
        ensures
            text_of(r.console) == old(self)@.recorded(level, fragments@).console_line(*now),
            text_of(r.file) == old(self)@.recorded(level, fragments@).file_line(*now),
            final(self)@ == old(self)@.recorded(level, fragments@).flushed(),
    {
        self.set_level(level);
        let mut i: usize = 0;
        while i < fragments.len()
            invariant
                i <= fragments.len(),
                self@ == old(self)@.recorded(level, fragments@.subrange(0, i as int)),
            decreases fragments.len() - i,
        {
            self.append_ref(&fragments[i]);
            proof {
                let fs = fragments@.subrange(0, i + 1);
                assert(fs.drop_last() =~= fragments@.subrange(0, i as int));
                assert(self@.buffer =~= old(self)@.buffer + fragments_text(fs));
            }
            i = i + 1;
        }
        assert(fragments@.subrange(0, fragments.len() as int) =~= fragments@);
        self.print_at(now)
    }

    /// One whole record at the current local time.
    pub fn log_print(&mut self, level: LogLevel, fragments: &Vec<Fragment>) -> (r: LogOutput)
        ensures
            final(self)@ == old(self)@.recorded(level, fragments@).flushed(),
            exists|t: LocalTime|
                #![trigger old(self)@.recorded(level, fragments@).console_line(t)]
                t.wf() && text_of(r.console) == old(self)@.recorded(level, fragments@).console_line(t)
                    && text_of(r.file) == old(self)@.recorded(level, fragments@).file_line(t),
    {
        let now = local_now();
        let r = self.log_print_at(level, fragments, &now);
        assert(now.wf() && text_of(r.console) == old(self)@.recorded(level, fragments@).console_line(now));
        r
    }

    /// The text of the record in flight.
    pub fn buffer(&self) -> (r: &str)
        ensures
            r@ == self@.buffer,
    {
        self.buffer.as_str()
    }

    /// The level of the record in flight.
    pub fn current_level(&self) -> (r: LogLevel)
        ensures
            r == self@.level,
    {
        self.current_level
    }

    /// Whether file logging is on.
    pub fn file_logging_enabled(&self) -> (r: bool)
        ensures
            r == self@.log_file_path.is_some(),
    {
        self.log_file_path.is_some()
    }

    /// The path of the open log file, while file logging is on.
    pub fn log_file_path(&self) -> (r: &Option<String>)
        ensures
            text_of(*r) == self@.log_file_path,
    {
        &self.log_file_path
    }
}

/// Appends `<ts> | <level_repr> | <body>\n`.
fn push_line(s: &mut String, ts: &String, level_repr: &str, body: &String)
    ensures
        final(s)@ == old(s)@ + line_text(ts@, level_repr@, body@),
{
    s.append(ts.as_str());
    s.append(" | ");
    s.append(level_repr);
    s.append(" | ");
    s.append(body.as_str());
    s.append("\n");
    assert(final(s)@ =~= old(s)@ + line_text(ts@, level_repr@, body@));
}

/// Appends the text of a fragment.
fn push_fragment(s: &mut String, f: &Fragment)
    ensures
        final(s)@ == old(s)@ + fragment_text(*f),
{
    match f {
        Fragment::Str(v) => s.append(v.as_str()),
        Fragment::Bool(b) => s.append(if *b { "true" } else { "false" }),
        Fragment::Char(c) => push_char(s, *c),
        Fragment::I8(v) => push_signed_decimal(s, *v as i64),
        Fragment::I16(v) => push_signed_decimal(s, *v as i64),
        Fragment::I32(v) => push_signed_decimal(s, *v as i64),
        Fragment::I64(v) => push_signed_decimal(s, *v),
        Fragment::U8(v) => push_decimal(s, *v as u64),
        Fragment::U16(v) => push_decimal(s, *v as u64),
        Fragment::U32(v) => push_decimal(s, *v as u64),
        Fragment::U64(v) => push_decimal(s, *v),
        Fragment::Hex8(v) => push_prefixed_hex(s, *v as u64, true),
        Fragment::Hex16(v) => push_prefixed_hex(s, *v as u64, true),
        Fragment::Hex32(v) => push_prefixed_hex(s, *v as u64, true),
        Fragment::Hex64(v) => push_prefixed_hex(s, *v, true),
        Fragment::Ptr(v) => push_prefixed_hex(s, *v as u64, false),
    }
}

/// Appends `0x` and the hexadecimal digits of `n`.
fn push_prefixed_hex(s: &mut String, n: u64, upper: bool)
    ensures
        final(s)@ == old(s)@ + prefixed_hex(n as nat, upper),
{
    s.append("0x");
    push_hexadecimal(s, n, upper);
    assert(final(s)@ =~= old(s)@ + prefixed_hex(n as nat, upper));
}

} // verus!
