// The debugger's command language: one command per line, keywords in any case, numbers in
// decimal or in hexadecimal after `0x` or `$`.
use vstd::prelude::*;
use vstd::string::StringSliceAdditionalSpecFns;

verus! {

/// A debugger command.
pub enum Command {
    ShowUsage,
    PrintState,
    PrintMemory(core::ops::Range<u16>),
    PrintBreakpoints,
    PrintWatchpoints,
    PrintLabels,
    SetBreakpoint(u16),
    SetBreakpointCycles(u64),
    SetWatchpoint(u16),
    SetLabel(String, u16),
    RemoveBreakpoint(u16),
    RemoveWatchpoint(u16),
    RemoveLabel(u16),
    ClearBreakpoints,
    ClearWatchpoints,
    ClearLabels,
    Disassemble(core::ops::Range<u16>),
    Goto(u16),
    Step,
    Continue,
    Reset,
    Trace,
    RepeatCommand(Box<Command>, u16),
}

/// A `Command` as a mathematical value (ranges as start and end).
pub enum CommandView {
    ShowUsage,
    PrintState,
    PrintMemory(u16, u16),
    PrintBreakpoints,
    PrintWatchpoints,
    PrintLabels,
    SetBreakpoint(u16),
    SetBreakpointCycles(u64),
    SetWatchpoint(u16),
    SetLabel(Seq<char>, u16),
    RemoveBreakpoint(u16),
    RemoveWatchpoint(u16),
    RemoveLabel(u16),
    ClearBreakpoints,
    ClearWatchpoints,
    ClearLabels,
    Disassemble(u16, u16),
    Goto(u16),
    Step,
    Continue,
    Reset,
    Trace,
    RepeatCommand(Box<CommandView>, u16),
}

impl View for Command {
    type V = CommandView;

    open spec fn view(&self) -> CommandView
        decreases self,
    {
        match self {
            Command::ShowUsage => CommandView::ShowUsage,
            Command::PrintState => CommandView::PrintState,
            Command::PrintMemory(r) => CommandView::PrintMemory(r.start, r.end),
            Command::PrintBreakpoints => CommandView::PrintBreakpoints,
            Command::PrintWatchpoints => CommandView::PrintWatchpoints,
            Command::PrintLabels => CommandView::PrintLabels,
            Command::SetBreakpoint(a) => CommandView::SetBreakpoint(*a),
            Command::SetBreakpointCycles(c) => CommandView::SetBreakpointCycles(*c),
            Command::SetWatchpoint(a) => CommandView::SetWatchpoint(*a),
            Command::SetLabel(l, a) => CommandView::SetLabel(l@, *a),
            Command::RemoveBreakpoint(a) => CommandView::RemoveBreakpoint(*a),
            Command::RemoveWatchpoint(a) => CommandView::RemoveWatchpoint(*a),
            Command::RemoveLabel(a) => CommandView::RemoveLabel(*a),
            Command::ClearBreakpoints => CommandView::ClearBreakpoints,
            Command::ClearWatchpoints => CommandView::ClearWatchpoints,
            Command::ClearLabels => CommandView::ClearLabels,
            Command::Disassemble(r) => CommandView::Disassemble(r.start, r.end),
            Command::Goto(a) => CommandView::Goto(*a),
            Command::Step => CommandView::Step,
            Command::Continue => CommandView::Continue,
            Command::Reset => CommandView::Reset,
            Command::Trace => CommandView::Trace,
            Command::RepeatCommand(c, n) => CommandView::RepeatCommand(Box::new((**c)@), *n),
        }
    }
}

/// Why a line is no command.
#[derive(Debug, Clone, Copy)]
pub enum CommandError {
    /// The line matches no command of the language.
    Invalid,
}

//
// Characters
//

pub open spec fn lower(b: u8) -> u8 {
    if 65 <= b <= 90 { (b + 32) as u8 } else { b }
}

#[inline]
fn to_lower(b: u8) -> (r: u8)
    ensures
        r == lower(b),
{
    if 65 <= b && b <= 90 { b + 32 } else { b }
}

pub open spec fn is_space(b: u8) -> bool {
    b == 32 || b == 9
}

pub open spec fn is_digit(b: u8) -> bool {
    48 <= b <= 57
}

pub open spec fn is_hex_digit(b: u8) -> bool {
    is_digit(b) || 97 <= b <= 102 || 65 <= b <= 70
}

pub open spec fn is_alnum(b: u8) -> bool {
    is_digit(b) || 97 <= b <= 122 || 65 <= b <= 90
}

pub open spec fn digit_value(b: u8) -> nat {
    if is_digit(b) { (b - 48) as nat } else if 97 <= b <= 102 { (b - 87) as nat } else { (b - 55) as nat }
}

/// How many bytes at the start of `s` are of the class `p`.
pub open spec fn run_len(s: Seq<u8>, p: spec_fn(u8) -> bool) -> nat
    decreases s.len(),
{
    if s.len() > 0 && p(s[0]) { 1 + run_len(s.drop_first(), p) } else { 0 }
}

/// The value of a run of digits in base `base`.
pub open spec fn digits_value(s: Seq<u8>, base: nat) -> nat
    decreases s.len(),
{
    if s.len() == 0 { 0 } else { digits_value(s.drop_last(), base) * base + digit_value(s.last()) }
}

/// The input starts with a line ending: `\n` or `\r\n`.
pub open spec fn is_line_ending(s: Seq<u8>) -> bool {
    (s.len() >= 1 && s[0] == 10) || (s.len() >= 2 && s[0] == 13 && s[1] == 10)
}

fn run_len_exec(input: &[u8], pos: usize, class: u8) -> (r: usize)
    requires
        pos <= input.len(),
        class < 4,
    ensures
        r == run_len(input@.skip(pos as int), class_of(class)),
        pos + r <= input.len(),
{
    let mut i = pos;
    while i < input.len() && in_class(input[i], class)
        invariant
            pos <= i <= input@.len(),
            class < 4,
            run_len(input@.skip(pos as int), class_of(class)) == (i - pos) + run_len(input@.skip(i as int), class_of(class)),
        decreases input@.len() - i,
    {
        proof {
            assert(input@.skip(i as int).drop_first() =~= input@.skip(i + 1));
        }
        i += 1;
    }
    i - pos
}

/// The character classes that `run_len_exec` scans: spaces, decimal digits, hex digits,
/// alphanumerics.
pub open spec fn class_of(class: u8) -> spec_fn(u8) -> bool {
    if class == 0 {
        |b: u8| is_space(b)
    } else if class == 1 {
        |b: u8| is_digit(b)
    } else if class == 2 {
        |b: u8| is_hex_digit(b)
    } else {
        |b: u8| is_alnum(b)
    }
}

fn in_class(b: u8, class: u8) -> (r: bool)
    requires
        class < 4,
    ensures
        r == class_of(class)(b),
{
    if class == 0 {
        b == 32 || b == 9
    } else if class == 1 {
        48 <= b && b <= 57
    } else if class == 2 {
        (48 <= b && b <= 57) || (97 <= b && b <= 102) || (65 <= b && b <= 70)
    } else {
        (48 <= b && b <= 57) || (97 <= b && b <= 122) || (65 <= b && b <= 90)
    }
}

//
// Keywords
//

/// The input starts with `printstate` (any case).
pub open spec fn spec_kw_printstate(s: Seq<u8>) -> bool {
    s.len() >= 10 && lower(s[0]) == 112 && lower(s[1]) == 114 && lower(s[2]) == 105 && lower(s[3]) == 110 && lower(s[4]) == 116 && lower(s[5]) == 115 && lower(s[6]) == 116 && lower(s[7]) == 97 && lower(s[8]) == 116 && lower(s[9]) == 101
}

fn kw_printstate(input: &[u8], pos: usize) -> (r: bool)
    requires
        pos <= input.len(),
    ensures
        r == spec_kw_printstate(input@.skip(pos as int)),
{
    input.len() - pos >= 10 && to_lower(input[pos + 0]) == 112 && to_lower(input[pos + 1]) == 114 && to_lower(input[pos + 2]) == 105 && to_lower(input[pos + 3]) == 110 && to_lower(input[pos + 4]) == 116 && to_lower(input[pos + 5]) == 115 && to_lower(input[pos + 6]) == 116 && to_lower(input[pos + 7]) == 97 && to_lower(input[pos + 8]) == 116 && to_lower(input[pos + 9]) == 101
}

/// The input starts with `ps` (any case).
pub open spec fn spec_kw_ps(s: Seq<u8>) -> bool {
    s.len() >= 2 && lower(s[0]) == 112 && lower(s[1]) == 115
}

fn kw_ps(input: &[u8], pos: usize) -> (r: bool)
    requires
        pos <= input.len(),
    ensures
        r == spec_kw_ps(input@.skip(pos as int)),
{
    input.len() - pos >= 2 && to_lower(input[pos + 0]) == 112 && to_lower(input[pos + 1]) == 115
}

/// The input starts with `printmemory` (any case).
pub open spec fn spec_kw_printmemory(s: Seq<u8>) -> bool {
    s.len() >= 11 && lower(s[0]) == 112 && lower(s[1]) == 114 && lower(s[2]) == 105 && lower(s[3]) == 110 && lower(s[4]) == 116 && lower(s[5]) == 109 && lower(s[6]) == 101 && lower(s[7]) == 109 && lower(s[8]) == 111 && lower(s[9]) == 114 && lower(s[10]) == 121
}

fn kw_printmemory(input: &[u8], pos: usize) -> (r: bool)
    requires
        pos <= input.len(),
    ensures
        r == spec_kw_printmemory(input@.skip(pos as int)),
{
    input.len() - pos >= 11 && to_lower(input[pos + 0]) == 112 && to_lower(input[pos + 1]) == 114 && to_lower(input[pos + 2]) == 105 && to_lower(input[pos + 3]) == 110 && to_lower(input[pos + 4]) == 116 && to_lower(input[pos + 5]) == 109 && to_lower(input[pos + 6]) == 101 && to_lower(input[pos + 7]) == 109 && to_lower(input[pos + 8]) == 111 && to_lower(input[pos + 9]) == 114 && to_lower(input[pos + 10]) == 121
}

/// The input starts with `pm` (any case).
pub open spec fn spec_kw_pm(s: Seq<u8>) -> bool {
    s.len() >= 2 && lower(s[0]) == 112 && lower(s[1]) == 109
}

fn kw_pm(input: &[u8], pos: usize) -> (r: bool)
    requires
        pos <= input.len(),
    ensures
        r == spec_kw_pm(input@.skip(pos as int)),
{
    input.len() - pos >= 2 && to_lower(input[pos + 0]) == 112 && to_lower(input[pos + 1]) == 109
}

/// The input starts with `printbreakpoints` (any case).
pub open spec fn spec_kw_printbreakpoints(s: Seq<u8>) -> bool {
    s.len() >= 16 && lower(s[0]) == 112 && lower(s[1]) == 114 && lower(s[2]) == 105 && lower(s[3]) == 110 && lower(s[4]) == 116 && lower(s[5]) == 98 && lower(s[6]) == 114 && lower(s[7]) == 101 && lower(s[8]) == 97 && lower(s[9]) == 107 && lower(s[10]) == 112 && lower(s[11]) == 111 && lower(s[12]) == 105 && lower(s[13]) == 110 && lower(s[14]) == 116 && lower(s[15]) == 115
}

fn kw_printbreakpoints(input: &[u8], pos: usize) -> (r: bool)
    requires
        pos <= input.len(),
    ensures
        r == spec_kw_printbreakpoints(input@.skip(pos as int)),
{
    input.len() - pos >= 16 && to_lower(input[pos + 0]) == 112 && to_lower(input[pos + 1]) == 114 && to_lower(input[pos + 2]) == 105 && to_lower(input[pos + 3]) == 110 && to_lower(input[pos + 4]) == 116 && to_lower(input[pos + 5]) == 98 && to_lower(input[pos + 6]) == 114 && to_lower(input[pos + 7]) == 101 && to_lower(input[pos + 8]) == 97 && to_lower(input[pos + 9]) == 107 && to_lower(input[pos + 10]) == 112 && to_lower(input[pos + 11]) == 111 && to_lower(input[pos + 12]) == 105 && to_lower(input[pos + 13]) == 110 && to_lower(input[pos + 14]) == 116 && to_lower(input[pos + 15]) == 115
}

/// The input starts with `pb` (any case).
pub open spec fn spec_kw_pb(s: Seq<u8>) -> bool {
    s.len() >= 2 && lower(s[0]) == 112 && lower(s[1]) == 98
}

fn kw_pb(input: &[u8], pos: usize) -> (r: bool)
    requires
        pos <= input.len(),
    ensures
        r == spec_kw_pb(input@.skip(pos as int)),
{
    input.len() - pos >= 2 && to_lower(input[pos + 0]) == 112 && to_lower(input[pos + 1]) == 98
}

/// The input starts with `printwatchpoints` (any case).
pub open spec fn spec_kw_printwatchpoints(s: Seq<u8>) -> bool {
    s.len() >= 16 && lower(s[0]) == 112 && lower(s[1]) == 114 && lower(s[2]) == 105 && lower(s[3]) == 110 && lower(s[4]) == 116 && lower(s[5]) == 119 && lower(s[6]) == 97 && lower(s[7]) == 116 && lower(s[8]) == 99 && lower(s[9]) == 104 && lower(s[10]) == 112 && lower(s[11]) == 111 && lower(s[12]) == 105 && lower(s[13]) == 110 && lower(s[14]) == 116 && lower(s[15]) == 115
}

fn kw_printwatchpoints(input: &[u8], pos: usize) -> (r: bool)
    requires
        pos <= input.len(),
    ensures
        r == spec_kw_printwatchpoints(input@.skip(pos as int)),
{
    input.len() - pos >= 16 && to_lower(input[pos + 0]) == 112 && to_lower(input[pos + 1]) == 114 && to_lower(input[pos + 2]) == 105 && to_lower(input[pos + 3]) == 110 && to_lower(input[pos + 4]) == 116 && to_lower(input[pos + 5]) == 119 && to_lower(input[pos + 6]) == 97 && to_lower(input[pos + 7]) == 116 && to_lower(input[pos + 8]) == 99 && to_lower(input[pos + 9]) == 104 && to_lower(input[pos + 10]) == 112 && to_lower(input[pos + 11]) == 111 && to_lower(input[pos + 12]) == 105 && to_lower(input[pos + 13]) == 110 && to_lower(input[pos + 14]) == 116 && to_lower(input[pos + 15]) == 115
}

/// The input starts with `pw` (any case).
pub open spec fn spec_kw_pw(s: Seq<u8>) -> bool {
    s.len() >= 2 && lower(s[0]) == 112 && lower(s[1]) == 119
}

fn kw_pw(input: &[u8], pos: usize) -> (r: bool)
    requires
        pos <= input.len(),
    ensures
        r == spec_kw_pw(input@.skip(pos as int)),
{
    input.len() - pos >= 2 && to_lower(input[pos + 0]) == 112 && to_lower(input[pos + 1]) == 119
}

/// The input starts with `printlabels` (any case).
pub open spec fn spec_kw_printlabels(s: Seq<u8>) -> bool {
    s.len() >= 11 && lower(s[0]) == 112 && lower(s[1]) == 114 && lower(s[2]) == 105 && lower(s[3]) == 110 && lower(s[4]) == 116 && lower(s[5]) == 108 && lower(s[6]) == 97 && lower(s[7]) == 98 && lower(s[8]) == 101 && lower(s[9]) == 108 && lower(s[10]) == 115
}

fn kw_printlabels(input: &[u8], pos: usize) -> (r: bool)
    requires
        pos <= input.len(),
    ensures
        r == spec_kw_printlabels(input@.skip(pos as int)),
{
    input.len() - pos >= 11 && to_lower(input[pos + 0]) == 112 && to_lower(input[pos + 1]) == 114 && to_lower(input[pos + 2]) == 105 && to_lower(input[pos + 3]) == 110 && to_lower(input[pos + 4]) == 116 && to_lower(input[pos + 5]) == 108 && to_lower(input[pos + 6]) == 97 && to_lower(input[pos + 7]) == 98 && to_lower(input[pos + 8]) == 101 && to_lower(input[pos + 9]) == 108 && to_lower(input[pos + 10]) == 115
}

/// The input starts with `pl` (any case).
pub open spec fn spec_kw_pl(s: Seq<u8>) -> bool {
    s.len() >= 2 && lower(s[0]) == 112 && lower(s[1]) == 108
}

fn kw_pl(input: &[u8], pos: usize) -> (r: bool)
    requires
        pos <= input.len(),
    ensures
        r == spec_kw_pl(input@.skip(pos as int)),
{
    input.len() - pos >= 2 && to_lower(input[pos + 0]) == 112 && to_lower(input[pos + 1]) == 108
}

/// The input starts with `setbreakpoint` (any case).
pub open spec fn spec_kw_setbreakpoint(s: Seq<u8>) -> bool {
    s.len() >= 13 && lower(s[0]) == 115 && lower(s[1]) == 101 && lower(s[2]) == 116 && lower(s[3]) == 98 && lower(s[4]) == 114 && lower(s[5]) == 101 && lower(s[6]) == 97 && lower(s[7]) == 107 && lower(s[8]) == 112 && lower(s[9]) == 111 && lower(s[10]) == 105 && lower(s[11]) == 110 && lower(s[12]) == 116
}

fn kw_setbreakpoint(input: &[u8], pos: usize) -> (r: bool)
    requires
        pos <= input.len(),
    ensures
        r == spec_kw_setbreakpoint(input@.skip(pos as int)),
{
    input.len() - pos >= 13 && to_lower(input[pos + 0]) == 115 && to_lower(input[pos + 1]) == 101 && to_lower(input[pos + 2]) == 116 && to_lower(input[pos + 3]) == 98 && to_lower(input[pos + 4]) == 114 && to_lower(input[pos + 5]) == 101 && to_lower(input[pos + 6]) == 97 && to_lower(input[pos + 7]) == 107 && to_lower(input[pos + 8]) == 112 && to_lower(input[pos + 9]) == 111 && to_lower(input[pos + 10]) == 105 && to_lower(input[pos + 11]) == 110 && to_lower(input[pos + 12]) == 116
}

/// The input starts with `sb` (any case).
pub open spec fn spec_kw_sb(s: Seq<u8>) -> bool {
    s.len() >= 2 && lower(s[0]) == 115 && lower(s[1]) == 98
}

fn kw_sb(input: &[u8], pos: usize) -> (r: bool)
    requires
        pos <= input.len(),
    ensures
        r == spec_kw_sb(input@.skip(pos as int)),
{
    input.len() - pos >= 2 && to_lower(input[pos + 0]) == 115 && to_lower(input[pos + 1]) == 98
}

/// The input starts with `removebreakpoint` (any case).
pub open spec fn spec_kw_removebreakpoint(s: Seq<u8>) -> bool {
    s.len() >= 16 && lower(s[0]) == 114 && lower(s[1]) == 101 && lower(s[2]) == 109 && lower(s[3]) == 111 && lower(s[4]) == 118 && lower(s[5]) == 101 && lower(s[6]) == 98 && lower(s[7]) == 114 && lower(s[8]) == 101 && lower(s[9]) == 97 && lower(s[10]) == 107 && lower(s[11]) == 112 && lower(s[12]) == 111 && lower(s[13]) == 105 && lower(s[14]) == 110 && lower(s[15]) == 116
}

fn kw_removebreakpoint(input: &[u8], pos: usize) -> (r: bool)
    requires
        pos <= input.len(),
    ensures
        r == spec_kw_removebreakpoint(input@.skip(pos as int)),
{
    input.len() - pos >= 16 && to_lower(input[pos + 0]) == 114 && to_lower(input[pos + 1]) == 101 && to_lower(input[pos + 2]) == 109 && to_lower(input[pos + 3]) == 111 && to_lower(input[pos + 4]) == 118 && to_lower(input[pos + 5]) == 101 && to_lower(input[pos + 6]) == 98 && to_lower(input[pos + 7]) == 114 && to_lower(input[pos + 8]) == 101 && to_lower(input[pos + 9]) == 97 && to_lower(input[pos + 10]) == 107 && to_lower(input[pos + 11]) == 112 && to_lower(input[pos + 12]) == 111 && to_lower(input[pos + 13]) == 105 && to_lower(input[pos + 14]) == 110 && to_lower(input[pos + 15]) == 116
}

/// The input starts with `rb` (any case).
pub open spec fn spec_kw_rb(s: Seq<u8>) -> bool {
    s.len() >= 2 && lower(s[0]) == 114 && lower(s[1]) == 98
}

fn kw_rb(input: &[u8], pos: usize) -> (r: bool)
    requires
        pos <= input.len(),
    ensures
        r == spec_kw_rb(input@.skip(pos as int)),
{
    input.len() - pos >= 2 && to_lower(input[pos + 0]) == 114 && to_lower(input[pos + 1]) == 98
}

/// The input starts with `setbreakpointcycles` (any case).
pub open spec fn spec_kw_setbreakpointcycles(s: Seq<u8>) -> bool {
    s.len() >= 19 && lower(s[0]) == 115 && lower(s[1]) == 101 && lower(s[2]) == 116 && lower(s[3]) == 98 && lower(s[4]) == 114 && lower(s[5]) == 101 && lower(s[6]) == 97 && lower(s[7]) == 107 && lower(s[8]) == 112 && lower(s[9]) == 111 && lower(s[10]) == 105 && lower(s[11]) == 110 && lower(s[12]) == 116 && lower(s[13]) == 99 && lower(s[14]) == 121 && lower(s[15]) == 99 && lower(s[16]) == 108 && lower(s[17]) == 101 && lower(s[18]) == 115
}

fn kw_setbreakpointcycles(input: &[u8], pos: usize) -> (r: bool)
    requires
        pos <= input.len(),
    ensures
        r == spec_kw_setbreakpointcycles(input@.skip(pos as int)),
{
    input.len() - pos >= 19 && to_lower(input[pos + 0]) == 115 && to_lower(input[pos + 1]) == 101 && to_lower(input[pos + 2]) == 116 && to_lower(input[pos + 3]) == 98 && to_lower(input[pos + 4]) == 114 && to_lower(input[pos + 5]) == 101 && to_lower(input[pos + 6]) == 97 && to_lower(input[pos + 7]) == 107 && to_lower(input[pos + 8]) == 112 && to_lower(input[pos + 9]) == 111 && to_lower(input[pos + 10]) == 105 && to_lower(input[pos + 11]) == 110 && to_lower(input[pos + 12]) == 116 && to_lower(input[pos + 13]) == 99 && to_lower(input[pos + 14]) == 121 && to_lower(input[pos + 15]) == 99 && to_lower(input[pos + 16]) == 108 && to_lower(input[pos + 17]) == 101 && to_lower(input[pos + 18]) == 115
}

/// The input starts with `sbc` (any case).
pub open spec fn spec_kw_sbc(s: Seq<u8>) -> bool {
    s.len() >= 3 && lower(s[0]) == 115 && lower(s[1]) == 98 && lower(s[2]) == 99
}

fn kw_sbc(input: &[u8], pos: usize) -> (r: bool)
    requires
        pos <= input.len(),
    ensures
        r == spec_kw_sbc(input@.skip(pos as int)),
{
    input.len() - pos >= 3 && to_lower(input[pos + 0]) == 115 && to_lower(input[pos + 1]) == 98 && to_lower(input[pos + 2]) == 99
}

/// The input starts with `setwatchpoint` (any case).
pub open spec fn spec_kw_setwatchpoint(s: Seq<u8>) -> bool {
    s.len() >= 13 && lower(s[0]) == 115 && lower(s[1]) == 101 && lower(s[2]) == 116 && lower(s[3]) == 119 && lower(s[4]) == 97 && lower(s[5]) == 116 && lower(s[6]) == 99 && lower(s[7]) == 104 && lower(s[8]) == 112 && lower(s[9]) == 111 && lower(s[10]) == 105 && lower(s[11]) == 110 && lower(s[12]) == 116
}

fn kw_setwatchpoint(input: &[u8], pos: usize) -> (r: bool)
    requires
        pos <= input.len(),
    ensures
        r == spec_kw_setwatchpoint(input@.skip(pos as int)),
{
    input.len() - pos >= 13 && to_lower(input[pos + 0]) == 115 && to_lower(input[pos + 1]) == 101 && to_lower(input[pos + 2]) == 116 && to_lower(input[pos + 3]) == 119 && to_lower(input[pos + 4]) == 97 && to_lower(input[pos + 5]) == 116 && to_lower(input[pos + 6]) == 99 && to_lower(input[pos + 7]) == 104 && to_lower(input[pos + 8]) == 112 && to_lower(input[pos + 9]) == 111 && to_lower(input[pos + 10]) == 105 && to_lower(input[pos + 11]) == 110 && to_lower(input[pos + 12]) == 116
}

/// The input starts with `sw` (any case).
pub open spec fn spec_kw_sw(s: Seq<u8>) -> bool {
    s.len() >= 2 && lower(s[0]) == 115 && lower(s[1]) == 119
}

fn kw_sw(input: &[u8], pos: usize) -> (r: bool)
    requires
        pos <= input.len(),
    ensures
        r == spec_kw_sw(input@.skip(pos as int)),
{
    input.len() - pos >= 2 && to_lower(input[pos + 0]) == 115 && to_lower(input[pos + 1]) == 119
}

/// The input starts with `removewatchpoint` (any case).
pub open spec fn spec_kw_removewatchpoint(s: Seq<u8>) -> bool {
    s.len() >= 16 && lower(s[0]) == 114 && lower(s[1]) == 101 && lower(s[2]) == 109 && lower(s[3]) == 111 && lower(s[4]) == 118 && lower(s[5]) == 101 && lower(s[6]) == 119 && lower(s[7]) == 97 && lower(s[8]) == 116 && lower(s[9]) == 99 && lower(s[10]) == 104 && lower(s[11]) == 112 && lower(s[12]) == 111 && lower(s[13]) == 105 && lower(s[14]) == 110 && lower(s[15]) == 116
}

fn kw_removewatchpoint(input: &[u8], pos: usize) -> (r: bool)
    requires
        pos <= input.len(),
    ensures
        r == spec_kw_removewatchpoint(input@.skip(pos as int)),
{
    input.len() - pos >= 16 && to_lower(input[pos + 0]) == 114 && to_lower(input[pos + 1]) == 101 && to_lower(input[pos + 2]) == 109 && to_lower(input[pos + 3]) == 111 && to_lower(input[pos + 4]) == 118 && to_lower(input[pos + 5]) == 101 && to_lower(input[pos + 6]) == 119 && to_lower(input[pos + 7]) == 97 && to_lower(input[pos + 8]) == 116 && to_lower(input[pos + 9]) == 99 && to_lower(input[pos + 10]) == 104 && to_lower(input[pos + 11]) == 112 && to_lower(input[pos + 12]) == 111 && to_lower(input[pos + 13]) == 105 && to_lower(input[pos + 14]) == 110 && to_lower(input[pos + 15]) == 116
}

/// The input starts with `rw` (any case).
pub open spec fn spec_kw_rw(s: Seq<u8>) -> bool {
    s.len() >= 2 && lower(s[0]) == 114 && lower(s[1]) == 119
}

fn kw_rw(input: &[u8], pos: usize) -> (r: bool)
    requires
        pos <= input.len(),
    ensures
        r == spec_kw_rw(input@.skip(pos as int)),
{
    input.len() - pos >= 2 && to_lower(input[pos + 0]) == 114 && to_lower(input[pos + 1]) == 119
}

/// The input starts with `setlabel` (any case).
pub open spec fn spec_kw_setlabel(s: Seq<u8>) -> bool {
    s.len() >= 8 && lower(s[0]) == 115 && lower(s[1]) == 101 && lower(s[2]) == 116 && lower(s[3]) == 108 && lower(s[4]) == 97 && lower(s[5]) == 98 && lower(s[6]) == 101 && lower(s[7]) == 108
}

fn kw_setlabel(input: &[u8], pos: usize) -> (r: bool)
    requires
        pos <= input.len(),
    ensures
        r == spec_kw_setlabel(input@.skip(pos as int)),
{
    input.len() - pos >= 8 && to_lower(input[pos + 0]) == 115 && to_lower(input[pos + 1]) == 101 && to_lower(input[pos + 2]) == 116 && to_lower(input[pos + 3]) == 108 && to_lower(input[pos + 4]) == 97 && to_lower(input[pos + 5]) == 98 && to_lower(input[pos + 6]) == 101 && to_lower(input[pos + 7]) == 108
}

/// The input starts with `sl` (any case).
pub open spec fn spec_kw_sl(s: Seq<u8>) -> bool {
    s.len() >= 2 && lower(s[0]) == 115 && lower(s[1]) == 108
}

fn kw_sl(input: &[u8], pos: usize) -> (r: bool)
    requires
        pos <= input.len(),
    ensures
        r == spec_kw_sl(input@.skip(pos as int)),
{
    input.len() - pos >= 2 && to_lower(input[pos + 0]) == 115 && to_lower(input[pos + 1]) == 108
}

/// The input starts with `removelabel` (any case).
pub open spec fn spec_kw_removelabel(s: Seq<u8>) -> bool {
    s.len() >= 11 && lower(s[0]) == 114 && lower(s[1]) == 101 && lower(s[2]) == 109 && lower(s[3]) == 111 && lower(s[4]) == 118 && lower(s[5]) == 101 && lower(s[6]) == 108 && lower(s[7]) == 97 && lower(s[8]) == 98 && lower(s[9]) == 101 && lower(s[10]) == 108
}

fn kw_removelabel(input: &[u8], pos: usize) -> (r: bool)
    requires
        pos <= input.len(),
    ensures
        r == spec_kw_removelabel(input@.skip(pos as int)),
{
    input.len() - pos >= 11 && to_lower(input[pos + 0]) == 114 && to_lower(input[pos + 1]) == 101 && to_lower(input[pos + 2]) == 109 && to_lower(input[pos + 3]) == 111 && to_lower(input[pos + 4]) == 118 && to_lower(input[pos + 5]) == 101 && to_lower(input[pos + 6]) == 108 && to_lower(input[pos + 7]) == 97 && to_lower(input[pos + 8]) == 98 && to_lower(input[pos + 9]) == 101 && to_lower(input[pos + 10]) == 108
}

/// The input starts with `rl` (any case).
pub open spec fn spec_kw_rl(s: Seq<u8>) -> bool {
    s.len() >= 2 && lower(s[0]) == 114 && lower(s[1]) == 108
}

fn kw_rl(input: &[u8], pos: usize) -> (r: bool)
    requires
        pos <= input.len(),
    ensures
        r == spec_kw_rl(input@.skip(pos as int)),
{
    input.len() - pos >= 2 && to_lower(input[pos + 0]) == 114 && to_lower(input[pos + 1]) == 108
}

/// The input starts with `clearbreakpoints` (any case).
pub open spec fn spec_kw_clearbreakpoints(s: Seq<u8>) -> bool {
    s.len() >= 16 && lower(s[0]) == 99 && lower(s[1]) == 108 && lower(s[2]) == 101 && lower(s[3]) == 97 && lower(s[4]) == 114 && lower(s[5]) == 98 && lower(s[6]) == 114 && lower(s[7]) == 101 && lower(s[8]) == 97 && lower(s[9]) == 107 && lower(s[10]) == 112 && lower(s[11]) == 111 && lower(s[12]) == 105 && lower(s[13]) == 110 && lower(s[14]) == 116 && lower(s[15]) == 115
}

fn kw_clearbreakpoints(input: &[u8], pos: usize) -> (r: bool)
    requires
        pos <= input.len(),
    ensures
        r == spec_kw_clearbreakpoints(input@.skip(pos as int)),
{
    input.len() - pos >= 16 && to_lower(input[pos + 0]) == 99 && to_lower(input[pos + 1]) == 108 && to_lower(input[pos + 2]) == 101 && to_lower(input[pos + 3]) == 97 && to_lower(input[pos + 4]) == 114 && to_lower(input[pos + 5]) == 98 && to_lower(input[pos + 6]) == 114 && to_lower(input[pos + 7]) == 101 && to_lower(input[pos + 8]) == 97 && to_lower(input[pos + 9]) == 107 && to_lower(input[pos + 10]) == 112 && to_lower(input[pos + 11]) == 111 && to_lower(input[pos + 12]) == 105 && to_lower(input[pos + 13]) == 110 && to_lower(input[pos + 14]) == 116 && to_lower(input[pos + 15]) == 115
}

/// The input starts with `cb` (any case).
pub open spec fn spec_kw_cb(s: Seq<u8>) -> bool {
    s.len() >= 2 && lower(s[0]) == 99 && lower(s[1]) == 98
}

fn kw_cb(input: &[u8], pos: usize) -> (r: bool)
    requires
        pos <= input.len(),
    ensures
        r == spec_kw_cb(input@.skip(pos as int)),
{
    input.len() - pos >= 2 && to_lower(input[pos + 0]) == 99 && to_lower(input[pos + 1]) == 98
}

/// The input starts with `clearwatchpoints` (any case).
pub open spec fn spec_kw_clearwatchpoints(s: Seq<u8>) -> bool {
    s.len() >= 16 && lower(s[0]) == 99 && lower(s[1]) == 108 && lower(s[2]) == 101 && lower(s[3]) == 97 && lower(s[4]) == 114 && lower(s[5]) == 119 && lower(s[6]) == 97 && lower(s[7]) == 116 && lower(s[8]) == 99 && lower(s[9]) == 104 && lower(s[10]) == 112 && lower(s[11]) == 111 && lower(s[12]) == 105 && lower(s[13]) == 110 && lower(s[14]) == 116 && lower(s[15]) == 115
}

fn kw_clearwatchpoints(input: &[u8], pos: usize) -> (r: bool)
    requires
        pos <= input.len(),
    ensures
        r == spec_kw_clearwatchpoints(input@.skip(pos as int)),
{
    input.len() - pos >= 16 && to_lower(input[pos + 0]) == 99 && to_lower(input[pos + 1]) == 108 && to_lower(input[pos + 2]) == 101 && to_lower(input[pos + 3]) == 97 && to_lower(input[pos + 4]) == 114 && to_lower(input[pos + 5]) == 119 && to_lower(input[pos + 6]) == 97 && to_lower(input[pos + 7]) == 116 && to_lower(input[pos + 8]) == 99 && to_lower(input[pos + 9]) == 104 && to_lower(input[pos + 10]) == 112 && to_lower(input[pos + 11]) == 111 && to_lower(input[pos + 12]) == 105 && to_lower(input[pos + 13]) == 110 && to_lower(input[pos + 14]) == 116 && to_lower(input[pos + 15]) == 115
}

/// The input starts with `cw` (any case).
pub open spec fn spec_kw_cw(s: Seq<u8>) -> bool {
    s.len() >= 2 && lower(s[0]) == 99 && lower(s[1]) == 119
}

fn kw_cw(input: &[u8], pos: usize) -> (r: bool)
    requires
        pos <= input.len(),
    ensures
        r == spec_kw_cw(input@.skip(pos as int)),
{
    input.len() - pos >= 2 && to_lower(input[pos + 0]) == 99 && to_lower(input[pos + 1]) == 119
}

/// The input starts with `clearlabels` (any case).
pub open spec fn spec_kw_clearlabels(s: Seq<u8>) -> bool {
    s.len() >= 11 && lower(s[0]) == 99 && lower(s[1]) == 108 && lower(s[2]) == 101 && lower(s[3]) == 97 && lower(s[4]) == 114 && lower(s[5]) == 108 && lower(s[6]) == 97 && lower(s[7]) == 98 && lower(s[8]) == 101 && lower(s[9]) == 108 && lower(s[10]) == 115
}

fn kw_clearlabels(input: &[u8], pos: usize) -> (r: bool)
    requires
        pos <= input.len(),
    ensures
        r == spec_kw_clearlabels(input@.skip(pos as int)),
{
    input.len() - pos >= 11 && to_lower(input[pos + 0]) == 99 && to_lower(input[pos + 1]) == 108 && to_lower(input[pos + 2]) == 101 && to_lower(input[pos + 3]) == 97 && to_lower(input[pos + 4]) == 114 && to_lower(input[pos + 5]) == 108 && to_lower(input[pos + 6]) == 97 && to_lower(input[pos + 7]) == 98 && to_lower(input[pos + 8]) == 101 && to_lower(input[pos + 9]) == 108 && to_lower(input[pos + 10]) == 115
}

/// The input starts with `cl` (any case).
pub open spec fn spec_kw_cl(s: Seq<u8>) -> bool {
    s.len() >= 2 && lower(s[0]) == 99 && lower(s[1]) == 108
}

fn kw_cl(input: &[u8], pos: usize) -> (r: bool)
    requires
        pos <= input.len(),
    ensures
        r == spec_kw_cl(input@.skip(pos as int)),
{
    input.len() - pos >= 2 && to_lower(input[pos + 0]) == 99 && to_lower(input[pos + 1]) == 108
}

/// The input starts with `disassemble` (any case).
pub open spec fn spec_kw_disassemble(s: Seq<u8>) -> bool {
    s.len() >= 11 && lower(s[0]) == 100 && lower(s[1]) == 105 && lower(s[2]) == 115 && lower(s[3]) == 97 && lower(s[4]) == 115 && lower(s[5]) == 115 && lower(s[6]) == 101 && lower(s[7]) == 109 && lower(s[8]) == 98 && lower(s[9]) == 108 && lower(s[10]) == 101
}

fn kw_disassemble(input: &[u8], pos: usize) -> (r: bool)
    requires
        pos <= input.len(),
    ensures
        r == spec_kw_disassemble(input@.skip(pos as int)),
{
    input.len() - pos >= 11 && to_lower(input[pos + 0]) == 100 && to_lower(input[pos + 1]) == 105 && to_lower(input[pos + 2]) == 115 && to_lower(input[pos + 3]) == 97 && to_lower(input[pos + 4]) == 115 && to_lower(input[pos + 5]) == 115 && to_lower(input[pos + 6]) == 101 && to_lower(input[pos + 7]) == 109 && to_lower(input[pos + 8]) == 98 && to_lower(input[pos + 9]) == 108 && to_lower(input[pos + 10]) == 101
}

/// The input starts with `d` (any case).
pub open spec fn spec_kw_d(s: Seq<u8>) -> bool {
    s.len() >= 1 && lower(s[0]) == 100
}

fn kw_d(input: &[u8], pos: usize) -> (r: bool)
    requires
        pos <= input.len(),
    ensures
        r == spec_kw_d(input@.skip(pos as int)),
{
    input.len() - pos >= 1 && to_lower(input[pos + 0]) == 100
}

/// The input starts with `goto` (any case).
pub open spec fn spec_kw_goto(s: Seq<u8>) -> bool {
    s.len() >= 4 && lower(s[0]) == 103 && lower(s[1]) == 111 && lower(s[2]) == 116 && lower(s[3]) == 111
}

fn kw_goto(input: &[u8], pos: usize) -> (r: bool)
    requires
        pos <= input.len(),
    ensures
        r == spec_kw_goto(input@.skip(pos as int)),
{
    input.len() - pos >= 4 && to_lower(input[pos + 0]) == 103 && to_lower(input[pos + 1]) == 111 && to_lower(input[pos + 2]) == 116 && to_lower(input[pos + 3]) == 111
}

/// The input starts with `g` (any case).
pub open spec fn spec_kw_g(s: Seq<u8>) -> bool {
    s.len() >= 1 && lower(s[0]) == 103
}

fn kw_g(input: &[u8], pos: usize) -> (r: bool)
    requires
        pos <= input.len(),
    ensures
        r == spec_kw_g(input@.skip(pos as int)),
{
    input.len() - pos >= 1 && to_lower(input[pos + 0]) == 103
}

/// The input starts with `step` (any case).
pub open spec fn spec_kw_step(s: Seq<u8>) -> bool {
    s.len() >= 4 && lower(s[0]) == 115 && lower(s[1]) == 116 && lower(s[2]) == 101 && lower(s[3]) == 112
}

fn kw_step(input: &[u8], pos: usize) -> (r: bool)
    requires
        pos <= input.len(),
    ensures
        r == spec_kw_step(input@.skip(pos as int)),
{
    input.len() - pos >= 4 && to_lower(input[pos + 0]) == 115 && to_lower(input[pos + 1]) == 116 && to_lower(input[pos + 2]) == 101 && to_lower(input[pos + 3]) == 112
}

/// The input starts with `s` (any case).
pub open spec fn spec_kw_s(s: Seq<u8>) -> bool {
    s.len() >= 1 && lower(s[0]) == 115
}

fn kw_s(input: &[u8], pos: usize) -> (r: bool)
    requires
        pos <= input.len(),
    ensures
        r == spec_kw_s(input@.skip(pos as int)),
{
    input.len() - pos >= 1 && to_lower(input[pos + 0]) == 115
}

/// The input starts with `continue` (any case).
pub open spec fn spec_kw_continue(s: Seq<u8>) -> bool {
    s.len() >= 8 && lower(s[0]) == 99 && lower(s[1]) == 111 && lower(s[2]) == 110 && lower(s[3]) == 116 && lower(s[4]) == 105 && lower(s[5]) == 110 && lower(s[6]) == 117 && lower(s[7]) == 101
}

fn kw_continue(input: &[u8], pos: usize) -> (r: bool)
    requires
        pos <= input.len(),
    ensures
        r == spec_kw_continue(input@.skip(pos as int)),
{
    input.len() - pos >= 8 && to_lower(input[pos + 0]) == 99 && to_lower(input[pos + 1]) == 111 && to_lower(input[pos + 2]) == 110 && to_lower(input[pos + 3]) == 116 && to_lower(input[pos + 4]) == 105 && to_lower(input[pos + 5]) == 110 && to_lower(input[pos + 6]) == 117 && to_lower(input[pos + 7]) == 101
}

/// The input starts with `c` (any case).
pub open spec fn spec_kw_c(s: Seq<u8>) -> bool {
    s.len() >= 1 && lower(s[0]) == 99
}

fn kw_c(input: &[u8], pos: usize) -> (r: bool)
    requires
        pos <= input.len(),
    ensures
        r == spec_kw_c(input@.skip(pos as int)),
{
    input.len() - pos >= 1 && to_lower(input[pos + 0]) == 99
}

/// The input starts with `reset` (any case).
pub open spec fn spec_kw_reset(s: Seq<u8>) -> bool {
    s.len() >= 5 && lower(s[0]) == 114 && lower(s[1]) == 101 && lower(s[2]) == 115 && lower(s[3]) == 101 && lower(s[4]) == 116
}

fn kw_reset(input: &[u8], pos: usize) -> (r: bool)
    requires
        pos <= input.len(),
    ensures
        r == spec_kw_reset(input@.skip(pos as int)),
{
    input.len() - pos >= 5 && to_lower(input[pos + 0]) == 114 && to_lower(input[pos + 1]) == 101 && to_lower(input[pos + 2]) == 115 && to_lower(input[pos + 3]) == 101 && to_lower(input[pos + 4]) == 116
}

/// The input starts with `trace` (any case).
pub open spec fn spec_kw_trace(s: Seq<u8>) -> bool {
    s.len() >= 5 && lower(s[0]) == 116 && lower(s[1]) == 114 && lower(s[2]) == 97 && lower(s[3]) == 99 && lower(s[4]) == 101
}

fn kw_trace(input: &[u8], pos: usize) -> (r: bool)
    requires
        pos <= input.len(),
    ensures
        r == spec_kw_trace(input@.skip(pos as int)),
{
    input.len() - pos >= 5 && to_lower(input[pos + 0]) == 116 && to_lower(input[pos + 1]) == 114 && to_lower(input[pos + 2]) == 97 && to_lower(input[pos + 3]) == 99 && to_lower(input[pos + 4]) == 101
}

/// The input starts with `repeatcommand` (any case).
pub open spec fn spec_kw_repeatcommand(s: Seq<u8>) -> bool {
    s.len() >= 13 && lower(s[0]) == 114 && lower(s[1]) == 101 && lower(s[2]) == 112 && lower(s[3]) == 101 && lower(s[4]) == 97 && lower(s[5]) == 116 && lower(s[6]) == 99 && lower(s[7]) == 111 && lower(s[8]) == 109 && lower(s[9]) == 109 && lower(s[10]) == 97 && lower(s[11]) == 110 && lower(s[12]) == 100
}

fn kw_repeatcommand(input: &[u8], pos: usize) -> (r: bool)
    requires
        pos <= input.len(),
    ensures
        r == spec_kw_repeatcommand(input@.skip(pos as int)),
{
    input.len() - pos >= 13 && to_lower(input[pos + 0]) == 114 && to_lower(input[pos + 1]) == 101 && to_lower(input[pos + 2]) == 112 && to_lower(input[pos + 3]) == 101 && to_lower(input[pos + 4]) == 97 && to_lower(input[pos + 5]) == 116 && to_lower(input[pos + 6]) == 99 && to_lower(input[pos + 7]) == 111 && to_lower(input[pos + 8]) == 109 && to_lower(input[pos + 9]) == 109 && to_lower(input[pos + 10]) == 97 && to_lower(input[pos + 11]) == 110 && to_lower(input[pos + 12]) == 100
}

/// The input starts with `r` (any case).
pub open spec fn spec_kw_r(s: Seq<u8>) -> bool {
    s.len() >= 1 && lower(s[0]) == 114
}

fn kw_r(input: &[u8], pos: usize) -> (r: bool)
    requires
        pos <= input.len(),
    ensures
        r == spec_kw_r(input@.skip(pos as int)),
{
    input.len() - pos >= 1 && to_lower(input[pos + 0]) == 114
}

//
// Numbers
//

/// A number: hexadecimal after `0x` or `$` (at most four digits are read), else decimal up to
/// 65535. The number and the bytes it takes.
pub open spec fn spec_literal_u16(s: Seq<u8>) -> Option<(u16, nat)> {
    let prefix: int = if s.len() >= 2 && s[0] == 48 && s[1] == 120 { 2 } else if s.len() >= 1 && s[0] == 36 { 1 } else { 0 };
    let h = run_len(s.skip(prefix), class_of(2));
    if prefix > 0 && h >= 1 {
        let n = if h > 4 { 4 } else { h };
        Some((digits_value(s.subrange(prefix, prefix + n), 16) as u16, (prefix + n) as nat))
    } else {
        let d = run_len(s, class_of(1));
        let v = digits_value(s.take(d as int), 10);
        if d >= 1 && v <= 65535 { Some((v as u16, d)) } else { None }
    }
}

/// A decimal number up to `u64::MAX`, and the bytes it takes.
pub open spec fn spec_decimal_u64(s: Seq<u8>) -> Option<(u64, nat)> {
    let d = run_len(s, class_of(1));
    let v = digits_value(s.take(d as int), 10);
    if d >= 1 && v <= u64::MAX { Some((v as u64, d)) } else { None }
}

proof fn lemma_run_len_bounds(s: Seq<u8>, p: spec_fn(u8) -> bool, i: int)
    requires
        0 <= i < run_len(s, p),
    ensures
        run_len(s, p) <= s.len(),
        p(s[i]),
    decreases s.len(),
{
    if i > 0 {
        lemma_run_len_bounds(s.drop_first(), p, i - 1);
    } else if s.len() > 0 && p(s[0]) && s.len() > 1 && run_len(s.drop_first(), p) > 0 {
        lemma_run_len_bounds(s.drop_first(), p, 0);
    }
}

proof fn lemma_digits_value_step(s: Seq<u8>, base: nat, k: int)
    requires
        0 <= k < s.len(),
    ensures
        digits_value(s.take(k + 1), base) == digits_value(s.take(k), base) * base + digit_value(s[k]),
{
    assert(s.take(k + 1).drop_last() =~= s.take(k));
}

/// The value of `len` decimal digits at `pos`, capped at `cap` (so that it fits).
fn decimal_value_capped(input: &[u8], pos: usize, len: usize, cap: u128) -> (r: u128)
    requires
        pos + len <= input@.len(),
        cap <= u64::MAX + 1,
        forall|i: int| pos <= i < pos + len ==> is_digit(#[trigger] input@[i]),
    ensures
        r == (if digits_value(input@.subrange(pos as int, pos + len), 10) < cap {
            digits_value(input@.subrange(pos as int, pos + len), 10)
        } else {
            cap as nat
        }),
{
    let ghost s = input@.subrange(pos as int, pos + len);
    let mut acc: u128 = 0;
    let mut i: usize = 0;
    while i < len
        invariant
            i <= len,
            pos + len <= input.len(),
            cap <= u64::MAX + 1,
            s == input@.subrange(pos as int, pos + len),
            forall|j: int| pos <= j < pos + len ==> is_digit(#[trigger] input@[j]),
            acc == (if digits_value(s.take(i as int), 10) < cap { digits_value(s.take(i as int), 10) } else { cap as nat }),
        decreases len - i,
    {
        let d = (input[pos + i] - 48) as u128;
        proof {
            lemma_digits_value_step(s, 10, i as int);
            assert(s[i as int] == input@[pos + i]);
        }
        let next = acc * 10 + d;
        acc = if next < cap { next } else { cap };
        i += 1;
    }
    proof {
        assert(s.take(len as int) =~= s);
    }
    acc
}

fn hex_value(input: &[u8], pos: usize, len: usize) -> (r: u16)
    requires
        pos + len <= input@.len(),
        len <= 4,
        forall|i: int| pos <= i < pos + len ==> is_hex_digit(#[trigger] input@[i]),
    ensures
        r == digits_value(input@.subrange(pos as int, pos + len), 16),
{
    let ghost s = input@.subrange(pos as int, pos + len);
    let mut acc: u32 = 0;
    let mut i: usize = 0;
    while i < len
        invariant
            i <= len <= 4,
            pos + len <= input.len(),
            s == input@.subrange(pos as int, pos + len),
            forall|j: int| pos <= j < pos + len ==> is_hex_digit(#[trigger] input@[j]),
            acc == digits_value(s.take(i as int), 16),
            acc < pow16(i as nat),
        decreases len - i,
    {
        let b = input[pos + i];
        let d: u32 = if 48 <= b && b <= 57 { (b - 48) as u32 } else if 97 <= b && b <= 102 { (b - 87) as u32 } else { (b - 55) as u32 };
        proof {
            lemma_digits_value_step(s, 16, i as int);
            assert(s[i as int] == input@[pos + i]);
            assert(acc * 16 + d < pow16((i + 1) as nat)) by (nonlinear_arith)
                requires acc < pow16(i as nat), d < 16, pow16((i + 1) as nat) == pow16(i as nat) * 16;
        }
        acc = acc * 16 + d;
        i += 1;
    }
    proof {
        assert(s.take(len as int) =~= s);
    }
    acc as u16
}

/// 16 to the power `n`, for `n` up to 4.
pub open spec fn pow16(n: nat) -> nat {
    if n == 0 { 1 } else if n == 1 { 16 } else if n == 2 { 256 } else if n == 3 { 4096 } else { 65536 }
}

fn literal_u16(input: &[u8], pos: usize) -> (r: Option<(u16, usize)>)
    requires
        pos <= input.len(),
    ensures
        match spec_literal_u16(input@.skip(pos as int)) {
            Some((v, n)) => r == Some((v, n as usize)) && pos + n <= input.len(),
            None => r is None,
        },
{
    let ghost s = input@.skip(pos as int);
    let rest = input.len() - pos;
    let prefix: usize = if rest >= 2 && input[pos] == 48 && input[pos + 1] == 120 {
        2
    } else if rest >= 1 && input[pos] == 36 {
        1
    } else {
        0
    };
    let h = run_len_exec(input, pos + prefix, 2);
    proof {
        assert(input@.skip(pos + prefix) =~= s.skip(prefix as int));
    }
    if prefix > 0 && h >= 1 {
        let n = if h > 4 { 4 } else { h };
        proof {
            assert forall|i: int| pos + prefix <= i < pos + prefix + n implies is_hex_digit(#[trigger] input@[i]) by {
                lemma_run_len_bounds(input@.skip(pos + prefix), class_of(2), i - (pos + prefix));
            }
            assert(input@.subrange(pos + prefix, pos + prefix + n) =~= s.subrange(prefix as int, prefix + n));
        }
        let v = hex_value(input, pos + prefix, n);
        Some((v, prefix + n))
    } else {
        let d = run_len_exec(input, pos, 1);
        if d >= 1 {
            proof {
                assert forall|i: int| pos <= i < pos + d implies is_digit(#[trigger] input@[i]) by {
                    lemma_run_len_bounds(input@.skip(pos as int), class_of(1), i - pos);
                }
                assert(input@.subrange(pos as int, pos + d) =~= s.take(d as int));
            }
            let v = decimal_value_capped(input, pos, d, 65536);
            if v <= 65535 {
                Some((v as u16, d))
            } else {
                None
            }
        } else {
            None
        }
    }
}

fn decimal_u64(input: &[u8], pos: usize) -> (r: Option<(u64, usize)>)
    requires
        pos <= input.len(),
    ensures
        match spec_decimal_u64(input@.skip(pos as int)) {
            Some((v, n)) => r == Some((v, n as usize)) && pos + n <= input.len(),
            None => r is None,
        },
{
    let ghost s = input@.skip(pos as int);
    let d = run_len_exec(input, pos, 1);
    if d >= 1 {
        proof {
            assert forall|i: int| pos <= i < pos + d implies is_digit(#[trigger] input@[i]) by {
                lemma_run_len_bounds(input@.skip(pos as int), class_of(1), i - pos);
            }
            assert(input@.subrange(pos as int, pos + d) =~= s.take(d as int));
        }
        let v = decimal_value_capped(input, pos, d, 0x1_0000_0000_0000_0000);
        if v <= 0xFFFF_FFFF_FFFF_FFFF {
            Some((v as u64, d))
        } else {
            None
        }
    } else {
        None
    }
}

//
// Command parts
//

/// The keyword of a command with a long and a short name: the long one is tried first.
pub open spec fn kw_len(long: bool, long_len: nat, short: bool, short_len: nat) -> Option<nat> {
    if long { Some(long_len) } else if short { Some(short_len) } else { None }
}

/// Spaces, then a number.
pub open spec fn spec_space_literal(s: Seq<u8>) -> Option<(u16, nat)> {
    let sp = run_len(s, class_of(0));
    if sp >= 1 {
        match spec_literal_u16(s.skip(sp as int)) {
            Some((v, n)) => Some((v, sp + n)),
            None => None,
        }
    } else {
        None
    }
}

/// `start..end`.
pub open spec fn spec_range(s: Seq<u8>) -> Option<(u16, u16, nat)> {
    match spec_literal_u16(s) {
        Some((a, n1)) => {
            let t = s.skip(n1 as int);
            if t.len() >= 2 && t[0] == 46 && t[1] == 46 {
                match spec_literal_u16(t.skip(2)) {
                    Some((b, n2)) => Some((a, b, n1 + 2 + n2)),
                    None => None,
                }
            } else {
                None
            }
        },
        None => None,
    }
}

/// An optional range after spaces: `start..end`, or `end` for `0..end`; `0..5` when absent.
pub open spec fn spec_opt_range(s: Seq<u8>) -> (u16, u16, nat) {
    let sp = run_len(s, class_of(0));
    if sp >= 1 {
        let u = s.skip(sp as int);
        match spec_range(u) {
            Some((a, b, n)) => (a, b, sp + n),
            None => match spec_literal_u16(u) {
                Some((e, n)) => (0, e, sp + n),
                None => (0, 5, 0),
            },
        }
    } else {
        (0, 5, 0)
    }
}

/// A label: an optional `.`, spaces, then letters and digits.
pub open spec fn spec_label(s: Seq<u8>) -> Option<(Seq<char>, nat)> {
    let dot: int = if s.len() >= 1 && s[0] == 46 { 1 } else { 0 };
    let t = s.skip(dot);
    let sp = run_len(t, class_of(0));
    let u = t.skip(sp as int);
    let n = run_len(u, class_of(3));
    if sp >= 1 && n >= 1 {
        Some((Seq::new(n, |i: int| u[i] as char), (dot + sp + n) as nat))
    } else {
        None
    }
}

/// A command keyword, then spaces and a number.
pub open spec fn p_arg(s: Seq<u8>, kw: Option<nat>) -> Option<(u16, nat)> {
    match kw {
        Some(k) => match spec_space_literal(s.skip(k as int)) {
            Some((a, m)) => Some((a, k + m)),
            None => None,
        },
        None => None,
    }
}

/// A command keyword, then spaces and a cycle count.
pub open spec fn p_cycles(s: Seq<u8>, kw: Option<nat>) -> Option<(u64, nat)> {
    match kw {
        Some(k) => match spec_space_cycles(s.skip(k as int)) {
            Some((c, m)) => Some((c, k + m)),
            None => None,
        },
        None => None,
    }
}

/// A command keyword, a label, then spaces and a number.
pub open spec fn p_label(s: Seq<u8>, kw: Option<nat>) -> Option<(Seq<char>, u16, nat)> {
    match kw {
        Some(k) => match spec_label(s.skip(k as int)) {
            Some((label, n)) => match spec_space_literal(s.skip((k + n) as int)) {
                Some((a, m)) => Some((label, a, k + n + m)),
                None => None,
            },
            None => None,
        },
        None => None,
    }
}

/// The commands to print state, memory, breakpoints, watchpoints and labels.
#[verifier::opaque]
pub open spec fn spec_print_command(s: Seq<u8>) -> Option<(CommandView, nat)> {
    if let Some(k) = kw_len(spec_kw_printstate(s), 10, spec_kw_ps(s), 2) {
        Some((CommandView::PrintState, k))
    } else if let Some(k) = kw_len(spec_kw_printmemory(s), 11, spec_kw_pm(s), 2) {
        let (a, b, m) = spec_opt_range(s.skip(k as int));
        Some((CommandView::PrintMemory(a, b), k + m))
    } else if let Some(k) = kw_len(spec_kw_printbreakpoints(s), 16, spec_kw_pb(s), 2) {
        Some((CommandView::PrintBreakpoints, k))
    } else if let Some(k) = kw_len(spec_kw_printwatchpoints(s), 16, spec_kw_pw(s), 2) {
        Some((CommandView::PrintWatchpoints, k))
    } else if let Some(k) = kw_len(spec_kw_printlabels(s), 11, spec_kw_pl(s), 2) {
        Some((CommandView::PrintLabels, k))
    } else {
        None
    }
}

/// The commands to set and remove breakpoints and watchpoints.
#[verifier::opaque]
pub open spec fn spec_point_command(s: Seq<u8>) -> Option<(CommandView, nat)> {
    if let Some((v, n)) = p_arg(s, kw_len(spec_kw_setbreakpoint(s), 13, spec_kw_sb(s), 2)) {
        Some((CommandView::SetBreakpoint(v), n))
    } else if let Some((v, n)) = p_arg(s, kw_len(spec_kw_removebreakpoint(s), 16, spec_kw_rb(s), 2)) {
        Some((CommandView::RemoveBreakpoint(v), n))
    } else if let Some((v, n)) = p_cycles(s, kw_len(spec_kw_setbreakpointcycles(s), 19, spec_kw_sbc(s), 3)) {
        Some((CommandView::SetBreakpointCycles(v), n))
    } else if let Some((v, n)) = p_arg(s, kw_len(spec_kw_setwatchpoint(s), 13, spec_kw_sw(s), 2)) {
        Some((CommandView::SetWatchpoint(v), n))
    } else if let Some((v, n)) = p_arg(s, kw_len(spec_kw_removewatchpoint(s), 16, spec_kw_rw(s), 2)) {
        Some((CommandView::RemoveWatchpoint(v), n))
    } else {
        None
    }
}

/// The commands on labels, the clearing commands and disassembly.
#[verifier::opaque]
pub open spec fn spec_label_command(s: Seq<u8>) -> Option<(CommandView, nat)> {
    if let Some((label, a, n)) = p_label(s, kw_len(spec_kw_setlabel(s), 8, spec_kw_sl(s), 2)) {
        Some((CommandView::SetLabel(label, a), n))
    } else if let Some((v, n)) = p_arg(s, kw_len(spec_kw_removelabel(s), 11, spec_kw_rl(s), 2)) {
        Some((CommandView::RemoveLabel(v), n))
    } else if let Some(k) = kw_len(spec_kw_clearbreakpoints(s), 16, spec_kw_cb(s), 2) {
        Some((CommandView::ClearBreakpoints, k))
    } else if let Some(k) = kw_len(spec_kw_clearwatchpoints(s), 16, spec_kw_cw(s), 2) {
        Some((CommandView::ClearWatchpoints, k))
    } else if let Some(k) = kw_len(spec_kw_clearlabels(s), 11, spec_kw_cl(s), 2) {
        Some((CommandView::ClearLabels, k))
    } else if let Some(k) = kw_len(spec_kw_disassemble(s), 11, spec_kw_d(s), 1) {
        let (a, b, m) = spec_opt_range(s.skip(k as int));
        Some((CommandView::Disassemble(a, b), k + m))
    } else {
        None
    }
}

/// The commands that run the emulator.
#[verifier::opaque]
pub open spec fn spec_run_command(s: Seq<u8>) -> Option<(CommandView, nat)> {
    if let Some((v, n)) = p_arg(s, kw_len(spec_kw_goto(s), 4, spec_kw_g(s), 1)) {
        Some((CommandView::Goto(v), n))
    } else if let Some(k) = kw_len(spec_kw_step(s), 4, spec_kw_s(s), 1) {
        Some((CommandView::Step, k))
    } else if let Some(k) = kw_len(spec_kw_continue(s), 8, spec_kw_c(s), 1) {
        Some((CommandView::Continue, k))
    } else if spec_kw_reset(s) {
        Some((CommandView::Reset, 5))
    } else if spec_kw_trace(s) {
        Some((CommandView::Trace, 5))
    } else {
        None
    }
}

/// A command without its line ending, and the bytes it takes. The alternatives are tried in
/// order; a keyword that matches but is not followed by what the command needs gives way to
/// the next alternative.
pub open spec fn spec_command(s: Seq<u8>) -> Option<(CommandView, nat)>
    decreases s.len(),
{
    if let Some(r) = spec_print_command(s) {
        Some(r)
    } else if let Some(r) = spec_point_command(s) {
        Some(r)
    } else if let Some(r) = spec_label_command(s) {
        Some(r)
    } else if let Some(r) = spec_run_command(s) {
        Some(r)
    } else if let Some(k) = kw_len(spec_kw_repeatcommand(s), 13, spec_kw_r(s), 1) {
        // `r COMMAND, COUNT`
        let t = s.skip(k as int);
        let sp = run_len(t, class_of(0));
        if sp >= 1 && k + sp <= s.len() {
            match spec_command(s.skip((k + sp) as int)) {
                Some((c, n)) => {
                    let w = s.skip((k + sp + n) as int);
                    if w.len() >= 1 && w[0] == 44 {
                        match spec_space_literal(w.skip(1)) {
                            Some((count, m)) => Some((CommandView::RepeatCommand(Box::new(c), count), k + sp + n + 1 + m)),
                            None => None,
                        }
                    } else {
                        None
                    }
                },
                None => None,
            }
        } else {
            None
        }
    } else {
        None
    }
}

/// Spaces, then a decimal cycle count.
pub open spec fn spec_space_cycles(s: Seq<u8>) -> Option<(u64, nat)> {
    let sp = run_len(s, class_of(0));
    if sp >= 1 {
        match spec_decimal_u64(s.skip(sp as int)) {
            Some((v, n)) => Some((v, sp + n)),
            None => None,
        }
    } else {
        None
    }
}

/// A line: an empty line asks for the usage; otherwise a command followed by a line ending.
/// What follows the line ending is ignored.
pub open spec fn spec_parse(s: Seq<u8>) -> Option<CommandView> {
    if is_line_ending(s) {
        Some(CommandView::ShowUsage)
    } else {
        match spec_command(s) {
            Some((c, n)) => if is_line_ending(s.skip(n as int)) { Some(c) } else { None },
            None => None,
        }
    }
}

/// A one-letter string of a letter or digit.
fn alnum_str(b: u8) -> (r: &'static str)
    requires
        is_alnum(b),
    ensures
        r@ == seq![b as char],
{
    match b {
        48 => {
            proof { reveal_strlit("0"); }
            "0"
        },
        49 => {
            proof { reveal_strlit("1"); }
            "1"
        },
        50 => {
            proof { reveal_strlit("2"); }
            "2"
        },
        51 => {
            proof { reveal_strlit("3"); }
            "3"
        },
        52 => {
            proof { reveal_strlit("4"); }
            "4"
        },
        53 => {
            proof { reveal_strlit("5"); }
            "5"
        },
        54 => {
            proof { reveal_strlit("6"); }
            "6"
        },
        55 => {
            proof { reveal_strlit("7"); }
            "7"
        },
        56 => {
            proof { reveal_strlit("8"); }
            "8"
        },
        57 => {
            proof { reveal_strlit("9"); }
            "9"
        },
        65 => {
            proof { reveal_strlit("A"); }
            "A"
        },
        66 => {
            proof { reveal_strlit("B"); }
            "B"
        },
        67 => {
            proof { reveal_strlit("C"); }
            "C"
        },
        68 => {
            proof { reveal_strlit("D"); }
            "D"
        },
        69 => {
            proof { reveal_strlit("E"); }
            "E"
        },
        70 => {
            proof { reveal_strlit("F"); }
            "F"
        },
        71 => {
            proof { reveal_strlit("G"); }
            "G"
        },
        72 => {
            proof { reveal_strlit("H"); }
            "H"
        },
        73 => {
            proof { reveal_strlit("I"); }
            "I"
        },
        74 => {
            proof { reveal_strlit("J"); }
            "J"
        },
        75 => {
            proof { reveal_strlit("K"); }
            "K"
        },
        76 => {
            proof { reveal_strlit("L"); }
            "L"
        },
        77 => {
            proof { reveal_strlit("M"); }
            "M"
        },
        78 => {
            proof { reveal_strlit("N"); }
            "N"
        },
        79 => {
            proof { reveal_strlit("O"); }
            "O"
        },
        80 => {
            proof { reveal_strlit("P"); }
            "P"
        },
        81 => {
            proof { reveal_strlit("Q"); }
            "Q"
        },
        82 => {
            proof { reveal_strlit("R"); }
            "R"
        },
        83 => {
            proof { reveal_strlit("S"); }
            "S"
        },
        84 => {
            proof { reveal_strlit("T"); }
            "T"
        },
        85 => {
            proof { reveal_strlit("U"); }
            "U"
        },
        86 => {
            proof { reveal_strlit("V"); }
            "V"
        },
        87 => {
            proof { reveal_strlit("W"); }
            "W"
        },
        88 => {
            proof { reveal_strlit("X"); }
            "X"
        },
        89 => {
            proof { reveal_strlit("Y"); }
            "Y"
        },
        90 => {
            proof { reveal_strlit("Z"); }
            "Z"
        },
        97 => {
            proof { reveal_strlit("a"); }
            "a"
        },
        98 => {
            proof { reveal_strlit("b"); }
            "b"
        },
        99 => {
            proof { reveal_strlit("c"); }
            "c"
        },
        100 => {
            proof { reveal_strlit("d"); }
            "d"
        },
        101 => {
            proof { reveal_strlit("e"); }
            "e"
        },
        102 => {
            proof { reveal_strlit("f"); }
            "f"
        },
        103 => {
            proof { reveal_strlit("g"); }
            "g"
        },
        104 => {
            proof { reveal_strlit("h"); }
            "h"
        },
        105 => {
            proof { reveal_strlit("i"); }
            "i"
        },
        106 => {
            proof { reveal_strlit("j"); }
            "j"
        },
        107 => {
            proof { reveal_strlit("k"); }
            "k"
        },
        108 => {
            proof { reveal_strlit("l"); }
            "l"
        },
        109 => {
            proof { reveal_strlit("m"); }
            "m"
        },
        110 => {
            proof { reveal_strlit("n"); }
            "n"
        },
        111 => {
            proof { reveal_strlit("o"); }
            "o"
        },
        112 => {
            proof { reveal_strlit("p"); }
            "p"
        },
        113 => {
            proof { reveal_strlit("q"); }
            "q"
        },
        114 => {
            proof { reveal_strlit("r"); }
            "r"
        },
        115 => {
            proof { reveal_strlit("s"); }
            "s"
        },
        116 => {
            proof { reveal_strlit("t"); }
            "t"
        },
        117 => {
            proof { reveal_strlit("u"); }
            "u"
        },
        118 => {
            proof { reveal_strlit("v"); }
            "v"
        },
        119 => {
            proof { reveal_strlit("w"); }
            "w"
        },
        120 => {
            proof { reveal_strlit("x"); }
            "x"
        },
        121 => {
            proof { reveal_strlit("y"); }
            "y"
        },
        122 => {
            proof { reveal_strlit("z"); }
            "z"
        },
        _ => {
            assert(false);
            ""
        },
    }
}

proof fn lemma_skip_skip(s: Seq<u8>, a: int, b: int)
    requires
        0 <= a,
        0 <= b,
        a + b <= s.len(),
    ensures
        s.skip(a).skip(b) == s.skip(a + b),
{
    assert(s.skip(a).skip(b) =~= s.skip(a + b));
}

fn space_literal(input: &[u8], pos: usize) -> (r: Option<(u16, usize)>)
    requires
        pos <= input.len(),
    ensures
        match spec_space_literal(input@.skip(pos as int)) {
            Some((v, n)) => r == Some((v, n as usize)) && pos + n <= input.len(),
            None => r is None,
        },
{
    let sp = run_len_exec(input, pos, 0);
    if sp >= 1 {
        proof { lemma_skip_skip(input@, pos as int, sp as int); }
        match literal_u16(input, pos + sp) {
            Some((v, n)) => Some((v, sp + n)),
            None => None,
        }
    } else {
        None
    }
}

fn space_cycles(input: &[u8], pos: usize) -> (r: Option<(u64, usize)>)
    requires
        pos <= input.len(),
    ensures
        match spec_space_cycles(input@.skip(pos as int)) {
            Some((v, n)) => r == Some((v, n as usize)) && pos + n <= input.len(),
            None => r is None,
        },
{
    let sp = run_len_exec(input, pos, 0);
    if sp >= 1 {
        proof { lemma_skip_skip(input@, pos as int, sp as int); }
        match decimal_u64(input, pos + sp) {
            Some((v, n)) => Some((v, sp + n)),
            None => None,
        }
    } else {
        None
    }
}

fn range_at(input: &[u8], pos: usize) -> (r: Option<(u16, u16, usize)>)
    requires
        pos <= input.len(),
    ensures
        match spec_range(input@.skip(pos as int)) {
            Some((a, b, n)) => r == Some((a, b, n as usize)) && pos + n <= input.len(),
            None => r is None,
        },
{
    match literal_u16(input, pos) {
        Some((a, n1)) => {
            proof { lemma_skip_skip(input@, pos as int, n1 as int); }
            let p = pos + n1;
            if input.len() - p >= 2 && input[p] == 46 && input[p + 1] == 46 {
                proof { lemma_skip_skip(input@, pos as int, (n1 + 2) as int); lemma_skip_skip(input@, p as int, 2); }
                match literal_u16(input, p + 2) {
                    Some((b, n2)) => Some((a, b, n1 + 2 + n2)),
                    None => None,
                }
            } else {
                None
            }
        },
        None => None,
    }
}

fn opt_range(input: &[u8], pos: usize) -> (r: (u16, u16, usize))
    requires
        pos <= input.len(),
    ensures
        r.0 == spec_opt_range(input@.skip(pos as int)).0,
        r.1 == spec_opt_range(input@.skip(pos as int)).1,
        r.2 == spec_opt_range(input@.skip(pos as int)).2,
        pos + r.2 <= input.len(),
{
    let sp = run_len_exec(input, pos, 0);
    if sp >= 1 {
        proof { lemma_skip_skip(input@, pos as int, sp as int); }
        match range_at(input, pos + sp) {
            Some((a, b, n)) => (a, b, sp + n),
            None => match literal_u16(input, pos + sp) {
                Some((e, n)) => (0, e, sp + n),
                None => (0, 5, 0),
            },
        }
    } else {
        (0, 5, 0)
    }
}

fn label_at(input: &[u8], pos: usize) -> (r: Option<(String, usize)>)
    requires
        pos <= input.len(),
    ensures
        match spec_label(input@.skip(pos as int)) {
            Some((l, n)) => r matches Some((st, m)) && st@ == l && m == n && pos + n <= input.len(),
            None => r is None,
        },
{
    let dot: usize = if input.len() - pos >= 1 && input[pos] == 46 { 1 } else { 0 };
    let sp = run_len_exec(input, pos + dot, 0);
    proof { lemma_skip_skip(input@, pos as int, dot as int); }
    let start = pos + dot + sp;
    proof { lemma_skip_skip(input@, (pos + dot) as int, sp as int); lemma_skip_skip(input@.skip(pos as int), dot as int, sp as int); }
    let n = run_len_exec(input, start, 3);
    if sp >= 1 && n >= 1 {
        let ghost u = input@.skip(start as int);
        let mut label = String::new();
        let mut i: usize = 0;
        while i < n
            invariant
                i <= n,
                start + n <= input.len(),
                u == input@.skip(start as int),
                n == run_len(u, class_of(3)),
                label@ == Seq::new(i as nat, |j: int| u[j] as char),
            decreases n - i,
        {
            proof { lemma_run_len_bounds(u, class_of(3), i as int); }
            let b = input[start + i];
            label.append(alnum_str(b));
            proof {
                assert(label@ =~= Seq::new((i + 1) as nat, |j: int| u[j] as char));
            }
            i += 1;
        }
        Some((label, dot + sp + n))
    } else {
        None
    }
}

/// The number of a command whose keyword took `kw` bytes.
fn arg_cmd(input: &[u8], pos: usize, kw: Option<usize>) -> (r: Option<(u16, usize)>)
    requires
        pos <= input.len(),
        kw matches Some(k) ==> pos + k <= input.len(),
    ensures
        match p_arg(input@.skip(pos as int), match kw { Some(k) => Some(k as nat), None => None }) {
            Some((v, n)) => r == Some((v, n as usize)) && pos + n <= input.len(),
            None => r is None,
        },
{
    match kw {
        Some(k) => {
            proof { lemma_skip_skip(input@, pos as int, k as int); }
            match space_literal(input, pos + k) {
                Some((a, m)) => Some((a, k + m)),
                None => None,
            }
        },
        None => None,
    }
}

fn kw_choice(long: bool, long_len: usize, short: bool, short_len: usize) -> (r: Option<usize>)
    ensures
        match kw_len(long, long_len as nat, short, short_len as nat) {
            Some(k) => r == Some(k as usize),
            None => r is None,
        },
{
    if long { Some(long_len) } else if short { Some(short_len) } else { None }
}

proof fn lemma_kw_fits(s: Seq<u8>, k: nat)
    requires
        k <= 19,
        (k == 10 && spec_kw_printstate(s)) || (k == 2 && (spec_kw_ps(s) || spec_kw_pm(s) || spec_kw_pb(s) || spec_kw_pw(s)
            || spec_kw_pl(s) || spec_kw_sb(s) || spec_kw_rb(s) || spec_kw_sw(s) || spec_kw_rw(s) || spec_kw_sl(s)
            || spec_kw_rl(s) || spec_kw_cb(s) || spec_kw_cw(s) || spec_kw_cl(s)))
            || (k == 11 && (spec_kw_printmemory(s) || spec_kw_printlabels(s) || spec_kw_removelabel(s)
            || spec_kw_clearlabels(s) || spec_kw_disassemble(s)))
            || (k == 16 && (spec_kw_printbreakpoints(s) || spec_kw_printwatchpoints(s) || spec_kw_removebreakpoint(s)
            || spec_kw_removewatchpoint(s) || spec_kw_clearbreakpoints(s) || spec_kw_clearwatchpoints(s)))
            || (k == 13 && (spec_kw_setbreakpoint(s) || spec_kw_setwatchpoint(s) || spec_kw_repeatcommand(s)))
            || (k == 19 && spec_kw_setbreakpointcycles(s)) || (k == 3 && spec_kw_sbc(s))
            || (k == 8 && (spec_kw_setlabel(s) || spec_kw_continue(s)))
            || (k == 4 && (spec_kw_goto(s) || spec_kw_step(s)))
            || (k == 1 && (spec_kw_d(s) || spec_kw_g(s) || spec_kw_s(s) || spec_kw_c(s) || spec_kw_r(s))),
    ensures
        k <= s.len(),
{
}

/// One of the printing commands at `pos`.
fn print_command_at(input: &[u8], pos: usize) -> (r: Option<(Command, usize)>)
    requires
        pos <= input.len(),
    ensures
        match spec_print_command(input@.skip(pos as int)) {
            Some((cv, n)) => r matches Some((c, m)) && c@ == cv && m == n && pos + n <= input.len(),
            None => r is None,
        },
{
    proof { reveal(spec_print_command); }
    if let Some(k) = kw_choice(kw_printstate(input, pos), 10, kw_ps(input, pos), 2) {
        return Some((Command::PrintState, k));
    }
    if let Some(k) = kw_choice(kw_printmemory(input, pos), 11, kw_pm(input, pos), 2) {
        proof { lemma_kw_fits(input@.skip(pos as int), k as nat); lemma_skip_skip(input@, pos as int, k as int); }
        let (a, b, m) = opt_range(input, pos + k);
        return Some((Command::PrintMemory(core::ops::Range { start: a, end: b }), k + m));
    }
    if let Some(k) = kw_choice(kw_printbreakpoints(input, pos), 16, kw_pb(input, pos), 2) {
        return Some((Command::PrintBreakpoints, k));
    }
    if let Some(k) = kw_choice(kw_printwatchpoints(input, pos), 16, kw_pw(input, pos), 2) {
        return Some((Command::PrintWatchpoints, k));
    }
    if let Some(k) = kw_choice(kw_printlabels(input, pos), 11, kw_pl(input, pos), 2) {
        return Some((Command::PrintLabels, k));
    }
    None
}

/// One of the breakpoint and watchpoint commands at `pos`.
fn point_command_at(input: &[u8], pos: usize) -> (r: Option<(Command, usize)>)
    requires
        pos <= input.len(),
    ensures
        match spec_point_command(input@.skip(pos as int)) {
            Some((cv, n)) => r matches Some((c, m)) && c@ == cv && m == n && pos + n <= input.len(),
            None => r is None,
        },
{
    proof { reveal(spec_point_command); }
    let kw = kw_choice(kw_setbreakpoint(input, pos), 13, kw_sb(input, pos), 2);
    if let Some(k) = kw { proof { lemma_kw_fits(input@.skip(pos as int), k as nat); } }
    if let Some((v, n)) = arg_cmd(input, pos, kw) {
        return Some((Command::SetBreakpoint(v), n));
    }
    let kw = kw_choice(kw_removebreakpoint(input, pos), 16, kw_rb(input, pos), 2);
    if let Some(k) = kw { proof { lemma_kw_fits(input@.skip(pos as int), k as nat); } }
    if let Some((v, n)) = arg_cmd(input, pos, kw) {
        return Some((Command::RemoveBreakpoint(v), n));
    }
    let kw = kw_choice(kw_setbreakpointcycles(input, pos), 19, kw_sbc(input, pos), 3);
    if let Some(k) = kw {
        proof { lemma_kw_fits(input@.skip(pos as int), k as nat); lemma_skip_skip(input@, pos as int, k as int); }
        if let Some((c, m)) = space_cycles(input, pos + k) {
            return Some((Command::SetBreakpointCycles(c), k + m));
        }
    }
    let kw = kw_choice(kw_setwatchpoint(input, pos), 13, kw_sw(input, pos), 2);
    if let Some(k) = kw { proof { lemma_kw_fits(input@.skip(pos as int), k as nat); } }
    if let Some((v, n)) = arg_cmd(input, pos, kw) {
        return Some((Command::SetWatchpoint(v), n));
    }
    let kw = kw_choice(kw_removewatchpoint(input, pos), 16, kw_rw(input, pos), 2);
    if let Some(k) = kw { proof { lemma_kw_fits(input@.skip(pos as int), k as nat); } }
    if let Some((v, n)) = arg_cmd(input, pos, kw) {
        return Some((Command::RemoveWatchpoint(v), n));
    }
    None
}

/// One of the label, clearing and disassembly commands at `pos`.
fn label_command_at(input: &[u8], pos: usize) -> (r: Option<(Command, usize)>)
    requires
        pos <= input.len(),
    ensures
        match spec_label_command(input@.skip(pos as int)) {
            Some((cv, n)) => r matches Some((c, m)) && c@ == cv && m == n && pos + n <= input.len(),
            None => r is None,
        },
{
    proof { reveal(spec_label_command); }
    let kw = kw_choice(kw_setlabel(input, pos), 8, kw_sl(input, pos), 2);
    if let Some(k) = kw {
        proof { lemma_kw_fits(input@.skip(pos as int), k as nat); lemma_skip_skip(input@, pos as int, k as int); }
        if let Some((label, n)) = label_at(input, pos + k) {
            proof { lemma_skip_skip(input@, pos as int, (k + n) as int); }
            if let Some((a, m)) = space_literal(input, pos + k + n) {
                return Some((Command::SetLabel(label, a), k + n + m));
            }
        }
    }
    let kw = kw_choice(kw_removelabel(input, pos), 11, kw_rl(input, pos), 2);
    if let Some(k) = kw { proof { lemma_kw_fits(input@.skip(pos as int), k as nat); } }
    if let Some((v, n)) = arg_cmd(input, pos, kw) {
        return Some((Command::RemoveLabel(v), n));
    }
    if let Some(k) = kw_choice(kw_clearbreakpoints(input, pos), 16, kw_cb(input, pos), 2) {
        return Some((Command::ClearBreakpoints, k));
    }
    if let Some(k) = kw_choice(kw_clearwatchpoints(input, pos), 16, kw_cw(input, pos), 2) {
        return Some((Command::ClearWatchpoints, k));
    }
    if let Some(k) = kw_choice(kw_clearlabels(input, pos), 11, kw_cl(input, pos), 2) {
        return Some((Command::ClearLabels, k));
    }
    if let Some(k) = kw_choice(kw_disassemble(input, pos), 11, kw_d(input, pos), 1) {
        proof { lemma_kw_fits(input@.skip(pos as int), k as nat); lemma_skip_skip(input@, pos as int, k as int); }
        let (a, b, m) = opt_range(input, pos + k);
        return Some((Command::Disassemble(core::ops::Range { start: a, end: b }), k + m));
    }
    None
}

/// One of the commands that run the emulator at `pos`.
fn run_command_at(input: &[u8], pos: usize) -> (r: Option<(Command, usize)>)
    requires
        pos <= input.len(),
    ensures
        match spec_run_command(input@.skip(pos as int)) {
            Some((cv, n)) => r matches Some((c, m)) && c@ == cv && m == n && pos + n <= input.len(),
            None => r is None,
        },
{
    proof { reveal(spec_run_command); }
    let kw = kw_choice(kw_goto(input, pos), 4, kw_g(input, pos), 1);
    if let Some(k) = kw { proof { lemma_kw_fits(input@.skip(pos as int), k as nat); } }
    if let Some((v, n)) = arg_cmd(input, pos, kw) {
        return Some((Command::Goto(v), n));
    }
    if let Some(k) = kw_choice(kw_step(input, pos), 4, kw_s(input, pos), 1) {
        return Some((Command::Step, k));
    }
    if let Some(k) = kw_choice(kw_continue(input, pos), 8, kw_c(input, pos), 1) {
        return Some((Command::Continue, k));
    }
    if kw_reset(input, pos) {
        return Some((Command::Reset, 5));
    }
    if kw_trace(input, pos) {
        return Some((Command::Trace, 5));
    }
    None
}

/// The command at `pos`, without its line ending, and the bytes it takes.
#[verifier::rlimit(60)]
#[verifier::spinoff_prover]
fn parse_command_at(input: &[u8], pos: usize) -> (r: Option<(Command, usize)>)
    requires
        pos <= input.len(),
    ensures
        match spec_command(input@.skip(pos as int)) {
            Some((cv, n)) => r matches Some((c, m)) && c@ == cv && m == n && pos + n <= input.len(),
            None => r is None,
        },
    decreases input.len() - pos,
{
    if let Some(r) = print_command_at(input, pos) {
        return Some(r);
    }
    if let Some(r) = point_command_at(input, pos) {
        return Some(r);
    }
    if let Some(r) = label_command_at(input, pos) {
        return Some(r);
    }
    if let Some(r) = run_command_at(input, pos) {
        return Some(r);
    }
    if let Some(k) = kw_choice(kw_repeatcommand(input, pos), 13, kw_r(input, pos), 1) {
        // `r COMMAND, COUNT`
        proof { lemma_kw_fits(input@.skip(pos as int), k as nat); lemma_skip_skip(input@, pos as int, k as int); }
        let sp = run_len_exec(input, pos + k, 0);
        if sp >= 1 {
            proof { lemma_skip_skip(input@, pos as int, (k + sp) as int); }
            if let Some((c, n)) = parse_command_at(input, pos + k + sp) {
                proof { lemma_skip_skip(input@, pos as int, (k + sp + n) as int); }
                let w = pos + k + sp + n;
                if input.len() - w >= 1 && input[w] == 44 {
                    proof { lemma_skip_skip(input@, w as int, 1); lemma_skip_skip(input@, pos as int, (k + sp + n + 1) as int); }
                    if let Some((count, m)) = space_literal(input, w + 1) {
                        let cmd = Command::RepeatCommand(Box::new(c), count);
                        return Some((cmd, k + sp + n + 1 + m));
                    }
                }
            }
        }
        return None;
    }
    None
}

impl Command {
    /// Parses a line of the debugger's command language.
    pub fn parse(input: &str) -> (r: Result<Command, CommandError>)
        ensures
            match spec_parse(input.spec_bytes()) {
                Some(cv) => r matches Ok(c) && c@ == cv,
                None => r is Err,
            },
    {
        let bytes = input.as_bytes();
        proof {
            assert(bytes@.skip(0) =~= bytes@);
        }
        if (bytes.len() >= 1 && bytes[0] == 10) || (bytes.len() >= 2 && bytes[0] == 13 && bytes[1] == 10) {
            return Ok(Command::ShowUsage);
        }
        match parse_command_at(bytes, 0) {
            Some((c, n)) => {
                let rest = bytes.len() - n;
                if (rest >= 1 && bytes[n] == 10) || (rest >= 2 && bytes[n] == 13 && bytes[n + 1] == 10) {
                    Ok(c)
                } else {
                    Err(CommandError::Invalid)
                }
            },
            None => Err(CommandError::Invalid),
        }
    }
}

} // verus!
