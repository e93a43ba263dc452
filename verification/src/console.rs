//! The debug console: the line that is typed, byte by byte, and the command
//! that a finished line stands for. Reading from and writing to the serial
//! line is left to the platform.
use vstd::prelude::*;
use vstd::string::StringSliceAdditionalSpecFns;
use crate::mloi::{handle_of, MK_HANDLE_t};
use crate::process::VppProcess;
use crate::registry::{first_hit, hits, lemma_first_hit_found, lemma_first_hit_missing};
use crate::vppkernel::{KernelView, VppKernel};

verus! {

/// The byte that erases the byte before it.
pub const BACKSPACE: u8 = 0x08;

/// What the console writes back when a byte arrives.
#[derive(Clone, Copy, Debug, PartialEq, Eq, Structural)]
pub enum Echo {
    /// A line break; the line is finished and is to be carried out.
    NewLine,
    /// Backspace, space, backspace: the last byte is wiped out.
    Erase,
    /// The byte itself.
    Byte(u8),
    /// Nothing; the byte is dropped.
    Nothing,
}

/// A range of bytes within a line.
#[derive(Clone, Copy, Debug, PartialEq, Eq, Structural)]
pub struct Span {
    /// Place of the first byte.
    pub from: usize,
    /// Place after the last byte.
    pub to: usize,
}

/// What a finished line asks for.
#[derive(Clone, Copy, Debug, PartialEq, Eq, Structural)]
pub enum ConsoleCommand {
    /// The line is empty.
    Nothing,
    /// The line holds a byte that is no ASCII character.
    Invalid,
    /// Show the commands.
    Help,
    /// List the processes.
    List,
    /// Show the numbers of processes.
    Status,
    /// Resume the process named by the bytes of the line in the given range,
    /// if a name follows the command.
    Resume(Option<Span>),
    /// Suspend the process named by the bytes of the line in the given
    /// range, if a name follows the command.
    Suspend(Option<Span>),
    /// No command of the console.
    Unknown,
}

/// Whether the byte is white space.
pub open spec fn is_space(byte: u8) -> bool {
    byte == 9 || byte == 10 || byte == 11 || byte == 12 || byte == 13 || byte == 32
}

/// The place of the first zero byte at or after `from`, or the length
/// where there is none.
pub open spec fn zero_from(line: Seq<u8>, from: int) -> int
    decreases line.len() - from,
{
    if 0 <= from < line.len() && line[from] != 0 {
        zero_from(line, from + 1)
    } else {
        from
    }
}

/// Where the text of a line ends: at its first zero byte. A line without a
/// zero byte has no text.
pub open spec fn text_end(line: Seq<u8>) -> int {
    if zero_from(line, 0) < line.len() {
        zero_from(line, 0)
    } else {
        0
    }
}

/// The first place at or after `from` and before `end` that holds no white
/// space, or `end`.
pub open spec fn skip_spaces(line: Seq<u8>, from: int, end: int) -> int
    decreases end - from,
{
    if 0 <= from < end <= line.len() && is_space(line[from]) {
        skip_spaces(line, from + 1, end)
    } else {
        from
    }
}

/// The first place at or after `from` and before `end` that holds white
/// space, or `end`.
pub open spec fn skip_word(line: Seq<u8>, from: int, end: int) -> int
    decreases end - from,
{
    if 0 <= from < end <= line.len() && !is_space(line[from]) {
        skip_word(line, from + 1, end)
    } else {
        from
    }
}

/// Where a text that starts at `start` ends once the white space at its end
/// is cut off.
pub open spec fn trim_end(line: Seq<u8>, start: int, end: int) -> int
    decreases end - start,
{
    if 0 <= start < end <= line.len() && is_space(line[end - 1]) {
        trim_end(line, start, end - 1)
    } else {
        end
    }
}

/// Whether the bytes from `at` on, up to `end`, begin with the word.
pub open spec fn begins_with(line: Seq<u8>, at: int, end: int, word: Seq<u8>) -> bool {
    &&& 0 <= at
    &&& at + word.len() <= end <= line.len()
    &&& line.subrange(at, at + word.len()) == word
}

/// Whether every byte before `end` is an ASCII character.
pub open spec fn is_ascii_until(line: Seq<u8>, end: int) -> bool {
    forall|i: int| 0 <= i < end ==> line[i] < 128
}

/// The word `help`.
pub open spec fn help_word() -> Seq<u8> {
    seq![0x68u8, 0x65u8, 0x6Cu8, 0x70u8]
}

/// The word `list`.
pub open spec fn list_word() -> Seq<u8> {
    seq![0x6Cu8, 0x69u8, 0x73u8, 0x74u8]
}

/// The word `status`.
pub open spec fn status_word() -> Seq<u8> {
    seq![0x73u8, 0x74u8, 0x61u8, 0x74u8, 0x75u8, 0x73u8]
}

/// The word `resume`.
pub open spec fn resume_word() -> Seq<u8> {
    seq![0x72u8, 0x65u8, 0x73u8, 0x75u8, 0x6Du8, 0x65u8]
}

/// The word `suspend`.
pub open spec fn suspend_word() -> Seq<u8> {
    seq![0x73u8, 0x75u8, 0x73u8, 0x70u8, 0x65u8, 0x6Eu8, 0x64u8]
}

/// The range of the second word of the text between `start` and `end`, if
/// the text has a second word. Words are parted by white space.
pub open spec fn second_word(line: Seq<u8>, start: int, end: int) -> Option<Span> {
    let from = skip_spaces(line, skip_word(line, start, end), end);
    if from < end {
        Some(Span { from: from as usize, to: skip_word(line, from, end) as usize })
    } else {
        None
    }
}

/// What a line asks for. Its text ends at the first zero byte; white space
/// around the text does not count; the command is what the text begins
/// with, and the name is the second word of the text.
pub open spec fn command_of(line: Seq<u8>) -> ConsoleCommand {
    let stop = text_end(line);
    let start = skip_spaces(line, 0, stop);
    let end = trim_end(line, start, stop);
    if stop == 0 {
        ConsoleCommand::Nothing
    } else if !is_ascii_until(line, stop) {
        ConsoleCommand::Invalid
    } else if begins_with(line, start, end, help_word()) {
        ConsoleCommand::Help
    } else if begins_with(line, start, end, list_word()) {
        ConsoleCommand::List
    } else if begins_with(line, start, end, status_word()) {
        ConsoleCommand::Status
    } else if begins_with(line, start, end, resume_word()) {
        ConsoleCommand::Resume(second_word(line, start, end))
    } else if begins_with(line, start, end, suspend_word()) {
        ConsoleCommand::Suspend(second_word(line, start, end))
    } else {
        ConsoleCommand::Unknown
    }
}

fn find_text_end(command: &[u8]) -> (stop: usize)
    ensures
        stop == text_end(command@),
        stop <= command@.len(),
{
    let mut i: usize = 0;
    while i < command.len() && command[i] != 0
        invariant
            i <= command@.len(),
            zero_from(command@, 0) == zero_from(command@, i as int),
        decreases command@.len() - i,
    {
        i += 1;
    }
    if i < command.len() {
        i
    } else {
        0
    }
}

fn all_ascii(command: &[u8], stop: usize) -> (ascii: bool)
    requires
        stop <= command@.len(),
    ensures
        ascii == is_ascii_until(command@, stop as int),
{
    let mut i: usize = 0;
    while i < stop
        invariant
            i <= stop <= command@.len(),
            is_ascii_until(command@, i as int),
        decreases stop - i,
    {
        if command[i] >= 128 {
            return false;
        }
        i += 1;
    }
    true
}

fn space(byte: u8) -> (answer: bool)
    ensures
        answer == is_space(byte),
{
    byte == 9 || byte == 10 || byte == 11 || byte == 12 || byte == 13 || byte == 32
}

fn past_spaces(command: &[u8], from: usize, end: usize) -> (at: usize)
    requires
        from <= end <= command@.len(),
    ensures
        at == skip_spaces(command@, from as int, end as int),
        from <= at <= end,
        at < end ==> !is_space(command@[at as int]),
{
    let mut i: usize = from;
    while i < end && space(command[i])
        invariant
            from <= i <= end <= command@.len(),
            skip_spaces(command@, from as int, end as int) == skip_spaces(
                command@,
                i as int,
                end as int,
            ),
        decreases end - i,
    {
        i += 1;
    }
    i
}

fn past_word(command: &[u8], from: usize, end: usize) -> (at: usize)
    requires
        from <= end <= command@.len(),
    ensures
        at == skip_word(command@, from as int, end as int),
        from <= at <= end,
{
    let mut i: usize = from;
    while i < end && !space(command[i])
        invariant
            from <= i <= end <= command@.len(),
            skip_word(command@, from as int, end as int) == skip_word(
                command@,
                i as int,
                end as int,
            ),
        decreases end - i,
    {
        i += 1;
    }
    i
}

fn before_spaces(command: &[u8], start: usize, end: usize) -> (at: usize)
    requires
        start <= end <= command@.len(),
    ensures
        at == trim_end(command@, start as int, end as int),
        start <= at <= end,
{
    let mut i: usize = end;
    while start < i && space(command[i - 1])
        invariant
            start <= i <= end <= command@.len(),
            trim_end(command@, start as int, end as int) == trim_end(
                command@,
                start as int,
                i as int,
            ),
        decreases i - start,
    {
        i -= 1;
    }
    i
}

fn has_word(command: &[u8], at: usize, end: usize, word: &[u8]) -> (answer: bool)
    requires
        at <= end <= command@.len(),
    ensures
        answer == begins_with(command@, at as int, end as int, word@),
{
    if word.len() > end - at {
        return false;
    }
    let mut i: usize = 0;
    while i < word.len()
        invariant
            i <= word@.len(),
            at + word@.len() <= end <= command@.len(),
            forall|j: int| 0 <= j < i ==> command@[at + j] == word@[j],
        decreases word@.len() - i,
    {
        if command[at + i] != word[i] {
            assert(command@.subrange(at as int, at + word@.len())[i as int] != word@[i as int]);
            return false;
        }
        i += 1;
    }
    assert(command@.subrange(at as int, at + word@.len()) =~= word@);
    true
}

proof fn lemma_word_reaches_on(line: Seq<u8>, from: int, end: int)
    requires
        0 <= from <= end <= line.len(),
    ensures
        from <= skip_word(line, from, end) <= end,
        from < end && !is_space(line[from]) ==> from < skip_word(line, from, end),
    decreases end - from,
{
    if from < end && !is_space(line[from]) {
        lemma_word_reaches_on(line, from + 1, end);
    }
}

fn name_in(command: &[u8], start: usize, end: usize) -> (name: Option<Span>)
    requires
        start <= end <= command@.len(),
    ensures
        name == second_word(command@, start as int, end as int),
        name matches Some(span) ==> start <= span.from < span.to <= end,
{
    let first_end = past_word(command, start, end);
    let from = past_spaces(command, first_end, end);
    if from < end {
        let to = past_word(command, from, end);
        proof {
            lemma_word_reaches_on(command@, from as int, end as int);
        }
        Some(Span { from, to })
    } else {
        None
    }
}

/// Reads what a line asks for.
pub fn parse_command(command: &[u8]) -> (asked: ConsoleCommand)
    ensures
        asked == command_of(command@),
        asked matches ConsoleCommand::Resume(Some(span)) ==> span.from < span.to <= command@.len(),
        asked matches ConsoleCommand::Suspend(Some(span)) ==> span.from < span.to <= command@.len(),
{
    let stop = find_text_end(command);
    if stop == 0 {
        return ConsoleCommand::Nothing;
    }
    if !all_ascii(command, stop) {
        return ConsoleCommand::Invalid;
    }
    let start = past_spaces(command, 0, stop);
    let end = before_spaces(command, start, stop);
    let help: [u8; 4] = [0x68, 0x65, 0x6C, 0x70];
    let list: [u8; 4] = [0x6C, 0x69, 0x73, 0x74];
    let status: [u8; 6] = [0x73, 0x74, 0x61, 0x74, 0x75, 0x73];
    let resume: [u8; 6] = [0x72, 0x65, 0x73, 0x75, 0x6D, 0x65];
    let suspend: [u8; 7] = [0x73, 0x75, 0x73, 0x70, 0x65, 0x6E, 0x64];
    assert(help@ =~= help_word());
    assert(list@ =~= list_word());
    assert(status@ =~= status_word());
    assert(resume@ =~= resume_word());
    assert(suspend@ =~= suspend_word());
    if has_word(command, start, end, help.as_slice()) {
        ConsoleCommand::Help
    } else if has_word(command, start, end, list.as_slice()) {
        ConsoleCommand::List
    } else if has_word(command, start, end, status.as_slice()) {
        ConsoleCommand::Status
    } else if has_word(command, start, end, resume.as_slice()) {
        ConsoleCommand::Resume(name_in(command, start, end))
    } else if has_word(command, start, end, suspend.as_slice()) {
        ConsoleCommand::Suspend(name_in(command, start, end))
    } else {
        ConsoleCommand::Unknown
    }
}

/// Whether the byte finishes the line.
pub open spec fn is_line_break(byte: u8) -> bool {
    byte == 10 || byte == 13
}

/// Whether the byte is taken into a line of the given length with the
/// given number of bytes typed: an ASCII character for which there is room
/// before the zero byte that ends the text.
pub open spec fn is_taken(length: int, index: int, byte: u8) -> bool {
    &&& !is_line_break(byte)
    &&& !(byte == BACKSPACE && index > 0)
    &&& 0 <= index
    &&& index + 1 < length
    &&& byte < 128
}

/// Whether the byte wipes out the last byte of the line.
pub open spec fn is_erasing(length: int, index: int, byte: u8) -> bool {
    byte == BACKSPACE && 0 < index <= length
}

/// What the console writes back for a byte.
pub open spec fn echo_of(length: int, index: int, byte: u8) -> Echo {
    if is_line_break(byte) {
        Echo::NewLine
    } else if is_erasing(length, index, byte) {
        Echo::Erase
    } else if is_taken(length, index, byte) {
        Echo::Byte(byte)
    } else {
        Echo::Nothing
    }
}

/// The line after a byte arrived: a byte that is taken goes behind the
/// bytes typed so far, with a zero byte after it; a backspace puts a zero
/// byte over the last byte typed; anything else leaves the line alone.
pub open spec fn line_after(line: Seq<u8>, index: int, byte: u8) -> Seq<u8> {
    if is_line_break(byte) {
        line
    } else if is_erasing(line.len() as int, index, byte) {
        line.update(index - 1, 0)
    } else if is_taken(line.len() as int, index, byte) {
        line.update(index, byte).update(index + 1, 0)
    } else {
        line
    }
}

/// The number of bytes typed after a byte arrived.
pub open spec fn index_after(length: int, index: int, byte: u8) -> int {
    if is_line_break(byte) {
        index
    } else if is_erasing(length, index, byte) {
        index - 1
    } else if is_taken(length, index, byte) {
        index + 1
    } else {
        index
    }
}

/// The line that is being typed.
#[derive(Debug)]
pub struct CommandLine {
    /// The bytes of the line; the text ends at the first zero byte.
    pub buffer: Vec<u8>,
    /// Number of bytes typed so far.
    pub index: usize,
}

impl CommandLine {
    /// An empty line of the given length.
    pub fn new(length: usize) -> (line: CommandLine)
        ensures
            line.buffer@ == Seq::new(length as nat, |i: int| 0u8),
            line.index == 0,
    {
        let mut buffer: Vec<u8> = Vec::new();
        while buffer.len() < length
            invariant
                buffer@.len() <= length,
                forall|i: int| 0 <= i < buffer@.len() ==> buffer@[i] == 0,
            decreases length - buffer@.len(),
        {
            buffer.push(0);
        }
        assert(buffer@ =~= Seq::new(length as nat, |i: int| 0u8));
        CommandLine { buffer, index: 0 }
    }

    /// Takes a byte from the serial line and says what to write back. A
    /// line break finishes the line, a backspace wipes out the last byte, an
    /// ASCII character is taken as long as there is room, and anything else
    /// is dropped.
    pub fn received(&mut self, byte: u8) -> (echo: Echo)
        ensures
            echo == echo_of(old(self).buffer@.len() as int, old(self).index as int, byte),
            final(self).buffer@ == line_after(old(self).buffer@, old(self).index as int, byte),
            final(self).index == index_after(
                old(self).buffer@.len() as int,
                old(self).index as int,
                byte,
            ),
    {
        let index = self.index;
        if byte == 10 || byte == 13 {
            Echo::NewLine
        } else if byte == BACKSPACE && index > 0 {
            if index <= self.buffer.len() {
                self.buffer.set(index - 1, 0);
                self.index = index - 1;
                Echo::Erase
            } else {
                Echo::Nothing
            }
        } else if index < self.buffer.len() && index + 1 < self.buffer.len() && byte < 128 {
            self.buffer.set(index, byte);
            self.buffer.set(index + 1, 0);
            self.index = index + 1;
            Echo::Byte(byte)
        } else {
            Echo::Nothing
        }
    }

    /// Reads what the finished line asks for and empties the line.
    pub fn read_command(&mut self) -> (asked: ConsoleCommand)
        ensures
            asked == command_of(old(self).buffer@),
            final(self).index == 0,
            final(self).buffer@ == if old(self).buffer@.len() > 0 {
                old(self).buffer@.update(0, 0)
            } else {
                old(self).buffer@
            },
    {
        let asked = parse_command(self.buffer.as_slice());
        if self.buffer.len() > 0 {
            self.buffer.set(0, 0);
        }
        self.index = 0;
        asked
    }
}

/// A line that was emptied holds no command.
pub proof fn lemma_emptied_line_asks_nothing(line: Seq<u8>)
    requires
        line.len() > 0,
    ensures
        command_of(line.update(0, 0)) == ConsoleCommand::Nothing,
{
}

/// Matches the record whose loaded process has the given name.
pub open spec fn has_name(name: Seq<u8>) -> spec_fn(VppProcess) -> bool {
    |process: VppProcess|
        process.tockprocess is Some && process.tockprocess->Some_0.name.spec_bytes() == name
}

impl KernelView {
    /// The handle of the first record whose loaded process has the given
    /// name.
    pub open spec fn handle_of_name(self, name: Seq<u8>) -> Option<MK_HANDLE_t> {
        match first_hit(self.processes, has_name(name)) {
            Some(i) => Some(handle_of(self.processes[i]->Some_0.vppid)),
            None => None,
        }
    }
}

fn same_bytes(left: &[u8], right: &[u8]) -> (same: bool)
    ensures
        same == (left@ == right@),
{
    if left.len() != right.len() {
        return false;
    }
    let mut i: usize = 0;
    while i < left.len()
        invariant
            i <= left@.len(),
            left@.len() == right@.len(),
            forall|j: int| 0 <= j < i ==> left@[j] == right@[j],
        decreases left@.len() - i,
    {
        if left[i] != right[i] {
            return false;
        }
        i += 1;
    }
    assert(left@ =~= right@);
    true
}

/// The handle of the process that the console means by a name: that of the
/// first record whose loaded process has the name.
pub fn handle_of_name(kernel: &VppKernel, name: &[u8]) -> (handle: Option<MK_HANDLE_t>)
    ensures
        handle == kernel@.handle_of_name(name@),
{
    let mut i: usize = 0;
    while i < kernel.vpp_processes.len()
        invariant
            i <= kernel.vpp_processes@.len(),
            forall|j: int| 0 <= j < i ==> !hits(kernel@.processes, has_name(name@), j),
        decreases kernel.vpp_processes@.len() - i,
    {
        match &kernel.vpp_processes[i] {
            Some(record) => {
                match &record.tockprocess {
                    Some(process) => {
                        if same_bytes(process.get_process_name().as_bytes(), name) {
                            proof {
                                assert(hits(kernel@.processes, has_name(name@), i as int));
                                lemma_first_hit_found(kernel@.processes, has_name(name@), i as int);
                            }
                            return Some(record.get_vpp_handle());
                        }
                    },
                    None => {},
                }
            },
            None => {},
        }
        i += 1;
    }
    proof {
        lemma_first_hit_missing(kernel@.processes, has_name(name@));
    }
    None
}

} // verus!
