use crate::cpu::{Flags, Regs, CPU};
use crate::error::EmuError;
use vstd::prelude::*;
use vstd::string::StrSliceExecFns;

verus! {

/// The registers that a reference run shows before one instruction.
#[derive(Clone, Copy, Debug, PartialEq, Eq, Structural)]
pub struct Trace {
    pub regs: Regs,
}

/// `regex::Regex`: a compiled regular expression. Nothing is known of what
/// it holds.
#[verifier::external_type_specification]
#[verifier::external_body]
pub struct ExRegex(regex::Regex);

/// `regex::Error`: why a pattern did not compile.
#[verifier::external_type_specification]
#[verifier::external_body]
pub struct ExRegexError(regex::Error);

/// `regex::Captures`: the groups of one match.
#[verifier::external_type_specification]
#[verifier::external_body]
pub struct ExCaptures<'h>(regex::Captures<'h>);

/// `regex::Match`: one matched stretch of the searched text.
#[verifier::external_type_specification]
#[verifier::external_body]
pub struct ExMatch<'h>(regex::Match<'h>);

/// Whether `regex::Regex::new` accepts `pattern`: the text is a regular
/// expression in the syntax of the `regex` crate, and what it compiles to
/// stays within the size limit that the crate sets by default.
pub uninterp spec fn regex_compiles(pattern: Seq<char>) -> bool;

/// `regex::Regex::new` compiles a pattern or says why it cannot. Whether it
/// succeeds is decided by the pattern alone, and [`regex_compiles`] is the
/// name of that decision. Nothing is claimed of the compiled expression or
/// of the error.
pub assume_specification[ regex::Regex::new ](re: &str) -> (r: Result<regex::Regex, regex::Error>)
    ensures
        r is Ok <==> regex_compiles(re@),
;

/// `regex::Regex::captures` searches the text for the leftmost match and
/// returns its groups, if there is a match. Nothing is claimed of the
/// outcome.
pub assume_specification<'h>[ regex::Regex::captures ](
    regex: &regex::Regex,
    haystack: &'h str,
) -> (r: Option<regex::Captures<'h>>);

/// `regex::Captures::name` returns the match of the group with the given
/// name, if the pattern has such a group and it took part in the match.
/// Nothing is claimed of the outcome.
pub assume_specification<'h>[ regex::Captures::<'h>::name ](
    caps: &regex::Captures<'h>,
    name: &str,
) -> (r: Option<regex::Match<'h>>);

/// `regex::Match::as_str` returns the matched text. Nothing is claimed of
/// it.
pub assume_specification<'h>[ regex::Match::<'h>::as_str ](m: &regex::Match<'h>) -> (r: &'h str);

/// The pieces of `text` between the occurrences of `separator`, in order.
/// A text without the separator is its own single piece, and there is one
/// piece more than there are separators; pieces may be empty.
pub open spec fn spec_split(text: Seq<char>, separator: char) -> Seq<Seq<char>>
    decreases text.len(),
{
    if text.len() == 0 {
        seq![Seq::<char>::empty()]
    } else {
        let rest = spec_split(text.subrange(1, text.len() as int), separator);
        if text[0] == separator {
            seq![Seq::<char>::empty()] + rest
        } else {
            seq![seq![text[0]] + rest[0]] + rest.subrange(1, rest.len() as int)
        }
    }
}

/// The views of a vector of string slices.
pub open spec fn views(pieces: Seq<&str>) -> Seq<Seq<char>> {
    Seq::new(pieces.len(), |i: int| pieces[i]@)
}

/// `str::split` with a `char` as the pattern: the pieces of `text` between
/// the occurrences of `separator`, in order, as [`spec_split`] lists them.
#[verifier::external_body]
fn split<'a>(text: &'a str, separator: char) -> (pieces: Vec<&'a str>)
    ensures
        views(pieces@) == spec_split(text@, separator),
{
    text.split(separator).collect()
}

/// The pieces that are not empty, in order.
pub open spec fn nonempty(pieces: Seq<Seq<char>>) -> Seq<Seq<char>>
    decreases pieces.len(),
{
    if pieces.len() == 0 {
        pieces
    } else if pieces.last().len() > 0 {
        nonempty(pieces.drop_last()).push(pieces.last())
    } else {
        nonempty(pieces.drop_last())
    }
}

/// The first piece that is not empty, if there is one.
pub open spec fn first_nonempty(pieces: Seq<Seq<char>>) -> Option<Seq<char>>
    decreases pieces.len(),
{
    if pieces.len() == 0 {
        None
    } else if pieces[0].len() > 0 {
        Some(pieces[0])
    } else {
        first_nonempty(pieces.subrange(1, pieces.len() as int))
    }
}

/// The first piece that is not empty.
fn first_nonempty_piece<'a>(pieces: &Vec<&'a str>) -> (r: Option<&'a str>)
    ensures
        r is Some == first_nonempty(views(pieces@)) is Some,
        r matches Some(piece) ==> first_nonempty(views(pieces@)) == Some(piece@),
{
    let ghost all = views(pieces@);
    let mut i: usize = 0;
    assert(all.subrange(0, all.len() as int) =~= all);
    while i < pieces.len()
        invariant
            i <= pieces.len(),
            all == views(pieces@),
            first_nonempty(all) == first_nonempty(all.subrange(i as int, all.len() as int)),
        decreases pieces.len() - i,
    {
        let piece = pieces[i];
        let ghost rest = all.subrange(i as int, all.len() as int);
        assert(rest[0] == piece@);
        if !piece.is_empty() {
            return Some(piece);
        }
        assert(rest.subrange(1, rest.len() as int) =~= all.subrange(i + 1, all.len() as int));
        i = i + 1;
    }
    assert(all.subrange(i as int, all.len() as int).len() == 0);
    None
}

/// The value of a hexadecimal digit, upper or lower case.
pub open spec fn hex_digit(c: char) -> Option<int> {
    let code = c as int;
    if 0x30 <= code <= 0x39 {
        Some(code - 0x30)
    } else if 0x41 <= code <= 0x46 {
        Some(code - 0x41 + 10)
    } else if 0x61 <= code <= 0x66 {
        Some(code - 0x61 + 10)
    } else {
        None
    }
}

/// Every character is a hexadecimal digit.
pub open spec fn all_hex(digits: Seq<char>) -> bool {
    forall|i: int| 0 <= i < digits.len() ==> (#[trigger] hex_digit(digits[i])) is Some
}

/// The number that a run of hexadecimal digits writes.
pub open spec fn hex_number(digits: Seq<char>) -> int
    decreases digits.len(),
{
    if digits.len() == 0 {
        0
    } else {
        16 * hex_number(digits.drop_last()) + hex_digit(digits.last()).unwrap_or(0)
    }
}

/// The digits of a number text: the text itself, or what follows a
/// leading plus sign.
pub open spec fn hex_digits_of(text: Seq<char>) -> Seq<char> {
    if text.len() > 0 && text[0] == '+' {
        text.subrange(1, text.len() as int)
    } else {
        text
    }
}

/// Reading `text` as a hexadecimal number of at most `max`: an optional
/// plus sign, then at least one digit and nothing else.
pub open spec fn spec_parse_hex(text: Seq<char>, max: int) -> Option<int> {
    let digits = hex_digits_of(text);
    if digits.len() > 0 && all_hex(digits) && hex_number(digits) <= max {
        Some(hex_number(digits))
    } else {
        None
    }
}

/// A longer run of digits writes a number that is no smaller.
proof fn lemma_hex_number_grows(digits: Seq<char>, n: int)
    requires
        0 <= n <= digits.len(),
        all_hex(digits),
    ensures
        0 <= hex_number(digits.subrange(0, n)) <= hex_number(digits),
    decreases digits.len() - n,
{
    if n == digits.len() {
        assert(digits.subrange(0, n) =~= digits);
        lemma_hex_number_nonnegative(digits);
    } else {
        lemma_hex_number_grows(digits, n + 1);
        let longer = digits.subrange(0, n + 1);
        assert(longer.drop_last() =~= digits.subrange(0, n));
        assert(longer.last() == digits[n]);
        assert(hex_digit(digits[n]) is Some);
        lemma_hex_number_nonnegative(digits.subrange(0, n));
    }
}

proof fn lemma_hex_number_nonnegative(digits: Seq<char>)
    ensures
        0 <= hex_number(digits),
    decreases digits.len(),
{
    if digits.len() > 0 {
        lemma_hex_number_nonnegative(digits.drop_last());
    }
}

/// Reads `text` as a hexadecimal number of at most `max`.
pub fn parse_hex(text: &str, max: u32) -> (r: Option<u32>)
    ensures
        r matches Some(n) ==> spec_parse_hex(text@, max as int) == Some(n as int),
        r is None ==> spec_parse_hex(text@, max as int) is None,
{
    let len = text.unicode_len();
    let start: usize = if len > 0 && text.get_char(0) == '+' {
        1
    } else {
        0
    };
    if start == len {
        return None;
    }
    let ghost digits = hex_digits_of(text@);
    assert(digits =~= text@.subrange(start as int, len as int));
    let mut acc: u32 = 0;
    let mut i: usize = start;
    while i < len
        invariant
            start <= i <= len,
            len == text@.len(),
            digits == text@.subrange(start as int, len as int),
            digits == hex_digits_of(text@),
            acc <= max,
            acc == hex_number(digits.subrange(0, i - start)),
            all_hex(digits.subrange(0, i - start)),
        decreases len - i,
    {
        let c = text.get_char(i);
        let code = c as u32;
        let digit: u32 = if 0x30 <= code && code <= 0x39 {
            code - 0x30
        } else if 0x41 <= code && code <= 0x46 {
            code - 0x41 + 10
        } else if 0x61 <= code && code <= 0x66 {
            code - 0x61 + 10
        } else {
            assert(hex_digit(digits[i - start]) is None);
            return None;
        };
        let ghost longer = digits.subrange(0, i - start + 1);
        proof {
            assert(longer.drop_last() =~= digits.subrange(0, i - start));
            assert(longer.last() == c);
            assert(hex_number(longer) == 16 * acc + digit);
            assert forall|j: int| 0 <= j < longer.len() implies (#[trigger] hex_digit(
                longer[j],
            )) is Some by {
                if j < i - start {
                    assert(longer[j] == digits.subrange(0, i - start)[j]);
                }
            }
        }
        if acc as u64 * 16 + digit as u64 > max as u64 {
            proof {
                if all_hex(digits) {
                    lemma_hex_number_grows(digits, i - start + 1);
                }
            }
            return None;
        }
        acc = acc * 16 + digit;
        i = i + 1;
    }
    assert(digits.subrange(0, len - start) =~= digits);
    Some(acc)
}

/// The registers that six number texts write: the program counter in 16
/// bits, the others in 8. `None` if one of the texts is no such number.
pub open spec fn spec_from_fields(
    pc: Seq<char>,
    a: Seq<char>,
    x: Seq<char>,
    y: Seq<char>,
    p: Seq<char>,
    sp: Seq<char>,
) -> Option<Trace> {
    if spec_parse_hex(pc, 0xffff) is Some && spec_parse_hex(a, 0xff) is Some && spec_parse_hex(
        x,
        0xff,
    ) is Some && spec_parse_hex(y, 0xff) is Some && spec_parse_hex(p, 0xff) is Some
        && spec_parse_hex(sp, 0xff) is Some {
        Some(
            Trace {
                regs: Regs {
                    A: spec_parse_hex(a, 0xff).unwrap() as u8,
                    X: spec_parse_hex(x, 0xff).unwrap() as u8,
                    Y: spec_parse_hex(y, 0xff).unwrap() as u8,
                    SP: spec_parse_hex(sp, 0xff).unwrap() as u8,
                    P: Flags { bits: spec_parse_hex(p, 0xff).unwrap() as u8 },
                    PC: spec_parse_hex(pc, 0xffff).unwrap() as u16,
                },
            },
        )
    } else {
        None
    }
}

/// The program counter that a line of a reference log starts with: its
/// first text between spaces, read as a hexadecimal number.
pub open spec fn spec_line_pc(line: Seq<char>) -> Option<int> {
    match first_nonempty(spec_split(line, ' ')) {
        Some(token) => spec_parse_hex(token, 0xffff),
        None => None,
    }
}

/// The pattern that finds the registers in a line of a reference log:
/// five named groups of word characters, each behind its register's name
/// and a colon, with one white-space character between them.
pub const TRACE_PATTERN: &'static str =
    r"A:(?P<A>\w+)\sX:(?P<X>\w+)\sY:(?P<Y>\w+)\sP:(?P<P>\w+)\sSP:(?P<SP>\w+)";

/// Reason given when the pattern does not compile.
pub const BAD_PATTERN: &'static str = "invalid trace pattern";

/// Name under which this module reports errors.
pub const REPORTER: &'static str = "trace";

impl Trace {
    /// Reads the six register texts of one log line.
    pub fn from_fields(pc: &str, a: &str, x: &str, y: &str, p: &str, sp: &str) -> (r: Option<
        Trace,
    >)
        ensures
            r == spec_from_fields(pc@, a@, x@, y@, p@, sp@),
    {
        let pc = parse_hex(pc, 0xffff)?;
        let a = parse_hex(a, 0xff)?;
        let x = parse_hex(x, 0xff)?;
        let y = parse_hex(y, 0xff)?;
        let sp = parse_hex(sp, 0xff)?;
        let p = parse_hex(p, 0xff)?;
        Some(
            Trace {
                regs: Regs {
                    A: a as u8,
                    X: x as u8,
                    Y: y as u8,
                    SP: sp as u8,
                    P: Flags::from_bits_truncate(p as u8),
                    PC: pc as u16,
                },
            },
        )
    }

    /// Compiles [`TRACE_PATTERN`]. It is that pattern which is handed to
    /// `regex::Regex::new`: the result is the compiled expression where the
    /// pattern is accepted, and else the error of this module.
    pub fn compile_pattern() -> (r: Result<regex::Regex, EmuError>)
        ensures
            r is Ok <==> regex_compiles(TRACE_PATTERN@),
            r matches Err(e) ==> e.spec_reason() == BAD_PATTERN@ && e.spec_file_name() == REPORTER@
                && e.spec_line() == 0,
    {
        match regex::Regex::new(TRACE_PATTERN) {
            Ok(regex) => Ok(regex),
            Err(_) => Err(EmuError::new(BAD_PATTERN.to_owned(), REPORTER.to_owned(), 0)),
        }
    }
}

/// `trace` is what the first text of `line` between spaces writes as the
/// program counter, together with some five texts for the other
/// registers.
pub open spec fn reads_line(line: Seq<char>, trace: Trace) -> bool {
    exists|a: Seq<char>, x: Seq<char>, y: Seq<char>, p: Seq<char>, sp: Seq<char>|
        first_nonempty(spec_split(line, ' ')) is Some && #[trigger] spec_from_fields(
            first_nonempty(spec_split(line, ' ')).unwrap(),
            a,
            x,
            y,
            p,
            sp,
        ) == Some(trace)
}

/// A line that was read starts with the program counter of what was read
/// from it.
pub proof fn lemma_reads_line_pc(line: Seq<char>, trace: Trace)
    requires
        reads_line(line, trace),
    ensures
        spec_line_pc(line) == Some(trace.regs.PC as int),
{
    let token = first_nonempty(spec_split(line, ' ')).unwrap();
    lemma_hex_number_nonnegative(hex_digits_of(token));
}

/// The pieces of a prefix that are not empty begin the pieces of the whole
/// that are not empty.
proof fn lemma_nonempty_prefix(pieces: Seq<Seq<char>>, n: int)
    requires
        0 <= n <= pieces.len(),
    ensures
        nonempty(pieces.subrange(0, n)).len() <= nonempty(pieces).len(),
        forall|k: int|
            0 <= k < nonempty(pieces.subrange(0, n)).len() ==> nonempty(pieces.subrange(0, n))[k]
                == nonempty(pieces)[k],
    decreases pieces.len() - n,
{
    if n == pieces.len() {
        assert(pieces.subrange(0, n) =~= pieces);
    } else {
        lemma_nonempty_prefix(pieces, n + 1);
        assert(pieces.subrange(0, n + 1).drop_last() =~= pieces.subrange(0, n));
    }
}

impl Trace {
    /// Reads one line of a reference log: the program counter from its
    /// first text between spaces, the other registers from the groups `A`,
    /// `X`, `Y`, `P` and `SP` of the first match of `regex`.
    ///
    /// `None` if the line has no first text, if `regex` does not match or
    /// lacks a group, or if one of the texts is no hexadecimal number of
    /// its register's width.
    pub fn generate_one_trace(line: &str, regex: &regex::Regex) -> (r: Option<Trace>)
        ensures
            r matches Some(trace) ==> reads_line(line@, trace),
            spec_line_pc(line@) is None ==> r is None,
    {
        let tokens = split(line, ' ');
        let pc = first_nonempty_piece(&tokens)?;
        let caps = regex.captures(line)?;
        let a = caps.name("A")?;
        let x = caps.name("X")?;
        let y = caps.name("Y")?;
        let sp = caps.name("SP")?;
        let p = caps.name("P")?;
        Trace::from_fields(pc, a.as_str(), x.as_str(), y.as_str(), p.as_str(), sp.as_str())
    }

    /// Reads a whole reference log: one snapshot for each line that is not
    /// empty, in order. `None` if a line cannot be read.
    pub fn generate_all_trace(text: &str, regex: &regex::Regex) -> (r: Option<Vec<Trace>>)
        ensures
            r matches Some(traces) ==> {
                let lines = nonempty(spec_split(text@, '\n'));
                &&& traces@.len() == lines.len()
                &&& forall|i: int|
                    0 <= i < lines.len() ==> reads_line(lines[i], #[trigger] traces@[i])
            },
            nonempty(spec_split(text@, '\n')).len() == 0 ==> r is Some,
            (exists|i: int|
                0 <= i < nonempty(spec_split(text@, '\n')).len() && spec_line_pc(
                    #[trigger] nonempty(spec_split(text@, '\n'))[i],
                ) is None) ==> r is None,
    {
        let pieces = split(text, '\n');
        let ghost all = views(pieces@);
        let mut traces: Vec<Trace> = Vec::new();
        let mut i: usize = 0;
        while i < pieces.len()
            invariant
                i <= pieces.len(),
                all == views(pieces@),
                all == spec_split(text@, '\n'),
                traces@.len() == nonempty(all.subrange(0, i as int)).len(),
                forall|k: int|
                    0 <= k < traces@.len() ==> reads_line(
                        nonempty(all.subrange(0, i as int))[k],
                        #[trigger] traces@[k],
                    ),
            decreases pieces.len() - i,
        {
            let line = pieces[i];
            let ghost before = nonempty(all.subrange(0, i as int));
            assert(all.subrange(0, i + 1).drop_last() =~= all.subrange(0, i as int));
            assert(all.subrange(0, i + 1).last() == line@);
            if !line.is_empty() {
                assert(nonempty(all.subrange(0, i + 1)) == before.push(line@));
                proof {
                    lemma_nonempty_prefix(all, i + 1);
                }
                let trace = match Trace::generate_one_trace(line, regex) {
                    Some(trace) => trace,
                    None => {
                        return None;
                    },
                };
                traces.push(trace);
            }
            i = i + 1;
        }
        assert(all.subrange(0, i as int) =~= all);
        proof {
            let lines = nonempty(all);
            assert forall|k: int| 0 <= k < lines.len() implies spec_line_pc(
                #[trigger] lines[k],
            ) is Some by {
                lemma_reads_line_pc(lines[k], traces@[k]);
            }
        }
        Some(traces)
    }
}

/// Replays a reference run: before each instruction the registers must
/// equal the next snapshot, and then the instruction at the program counter
/// is executed.
///
/// `Ok` when every snapshot was met; the processor has then executed as
/// many instructions as there are snapshots. `Err(k)` when snapshot `k`
/// is the first that the registers differ from; the processor has then
/// executed `k` instructions.
pub fn trace(cpu: &mut CPU, trace_vec: &Vec<Trace>) -> (r: Result<(), usize>)
    ensures
        match r {
            Ok(_) => {
                &&& forall|i: int|
                    0 <= i < trace_vec@.len() ==> (#[trigger] trace_vec@[i]).regs == old(cpu)@.run(
                        i as nat,
                    ).regs
                &&& final(cpu)@ == old(cpu)@.run(trace_vec@.len())
            },
            Err(k) => {
                &&& k < trace_vec@.len()
                &&& forall|i: int|
                    0 <= i < k ==> (#[trigger] trace_vec@[i]).regs == old(cpu)@.run(i as nat).regs
                &&& trace_vec@[k as int].regs != old(cpu)@.run(k as nat).regs
                &&& final(cpu)@ == old(cpu)@.run(k as nat)
            },
        },
{
    let mut i: usize = 0;
    while i < trace_vec.len()
        invariant
            i <= trace_vec@.len(),
            cpu@ == old(cpu)@.run(i as nat),
            forall|j: int|
                0 <= j < i ==> (#[trigger] trace_vec@[j]).regs == old(cpu)@.run(j as nat).regs,
        decreases trace_vec@.len() - i,
    {
        if trace_vec[i].regs == cpu.get_regs() {
            let inst = cpu.get_next_inst();
            cpu.exec_once(&inst);
        } else {
            return Err(i);
        }
        i = i + 1;
    }
    Ok(())
}

} // verus!
