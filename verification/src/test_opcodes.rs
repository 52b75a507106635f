use vstd::prelude::*;
use vstd::string::StringExecFns;
use crate::cpu::Cpu;
use crate::text::{decimal_text, hex_digit, hex_text, push_decimal, push_hex};

verus! {

/// The CPU state that one line of a reference trace (such as nestest.log)
/// records before an instruction runs, e.g.
/// `C000  4C F5 C5  JMP $C5F5  A:00 X:00 Y:00 P:24 SP:FD PPU:  0, 21 CYC:7`.
#[derive(Debug, Clone, Copy, PartialEq, Eq, Structural)]
pub struct LogLine {
    pub pc: u16,
    pub a: u8,
    pub x: u8,
    pub y: u8,
    pub p: u8,
    pub sp: u8,
    pub cyc: usize,
}

/// How a trace line is written out.
pub open spec fn log_line_text(l: LogLine) -> Seq<char> {
    "PC:0x"@ + hex_text(l.pc as nat, 4) + ", A:0x"@ + hex_text(l.a as nat, 2) + ", X:0x"@ + hex_text(
        l.x as nat,
        2,
    ) + ", Y:0x"@ + hex_text(l.y as nat, 2) + ", P:0x"@ + hex_text(l.p as nat, 2) + ", SP:0x"@
        + hex_text(l.sp as nat, 2) + ", CYC:"@ + decimal_text(l.cyc as nat)
}

impl LogLine {
    /// The trace line of the CPU's current state.
    pub fn from_cpu(cpu: &Cpu) -> (r: Self)
        ensures
            r == (LogLine {
                pc: cpu@.pc,
                a: cpu@.a,
                x: cpu@.x,
                y: cpu@.y,
                p: cpu@.status,
                sp: cpu@.sp,
                cyc: cpu@.cycle_count,
            }),
    {
        Self {
            pc: cpu.pc,
            a: cpu.a,
            x: cpu.x,
            y: cpu.y,
            p: cpu.processor_status.into(),
            sp: cpu.sp,
            cyc: cpu.cycle_count,
        }
    }

    /// The line written out (see `log_line_text`).
    pub fn to_string(&self) -> (r: String)
        ensures
            r@ == log_line_text(*self),
    {
        let mut s = String::new();
        s.append("PC:0x");
        push_hex(&mut s, self.pc as u64, 4);
        s.append(", A:0x");
        push_hex(&mut s, self.a as u64, 2);
        s.append(", X:0x");
        push_hex(&mut s, self.x as u64, 2);
        s.append(", Y:0x");
        push_hex(&mut s, self.y as u64, 2);
        s.append(", P:0x");
        push_hex(&mut s, self.p as u64, 2);
        s.append(", SP:0x");
        push_hex(&mut s, self.sp as u64, 2);
        s.append(", CYC:");
        push_decimal(&mut s, self.cyc as u64);
        assert(s@ =~= log_line_text(*self));
        s
    }
}

} // verus!

verus! {

// ---- Reading a trace line ----

/// Is `c` white space (the Unicode White_Space characters, which
/// `str::split_whitespace` splits at)?
pub open spec fn is_space(c: char) -> bool {
    let u = c as u32;
    (0x09 <= u <= 0x0D) || u == 0x20 || u == 0x85 || u == 0xA0 || u == 0x1680 || (0x2000 <= u
        <= 0x200A) || u == 0x2028 || u == 0x2029 || u == 0x202F || u == 0x205F || u == 0x3000
}

/// The length of the run of non-space characters that `s` starts with.
pub open spec fn word_len(s: Seq<char>) -> nat
    decreases s.len(),
{
    if s.len() == 0 || is_space(s[0]) {
        0
    } else {
        1 + word_len(s.drop_first())
    }
}

/// A word is no longer than the text, and one that starts with a
/// non-space character has at least that character.
pub proof fn lemma_word_len_bounds(s: Seq<char>)
    ensures
        word_len(s) <= s.len(),
        s.len() > 0 && !is_space(s[0]) ==> word_len(s) >= 1,
    decreases s.len(),
{
    if s.len() > 0 && !is_space(s[0]) {
        lemma_word_len_bounds(s.drop_first());
    }
}

/// The words of `s`: its maximal runs of non-space characters, in order.
pub open spec fn words(s: Seq<char>) -> Seq<Seq<char>>
    decreases s.len(),
{
    if s.len() == 0 {
        Seq::empty()
    } else if is_space(s[0]) {
        words(s.drop_first())
    } else {
        proof {
            lemma_word_len_bounds(s);
        }
        seq![s.take(word_len(s) as int)] + words(s.skip(word_len(s) as int))
    }
}

/// The value of digit `c` in base 16 (`hex`) or 10, if it is one.
pub open spec fn digit_value(c: char, hex: bool) -> Option<nat> {
    let u = c as u32;
    if 0x30 <= u <= 0x39 {
        Some((u - 0x30) as nat)
    } else if hex && 0x61 <= u <= 0x66 {
        Some((u - 0x61 + 10) as nat)
    } else if hex && 0x41 <= u <= 0x46 {
        Some((u - 0x41 + 10) as nat)
    } else {
        None
    }
}

/// The number that the digits `s` spell in base 16 (`hex`) or 10, if all
/// of them are digits (0 for no digits).
pub open spec fn digits_value(s: Seq<char>, hex: bool) -> Option<nat>
    decreases s.len(),
{
    if s.len() == 0 {
        Some(0)
    } else {
        match (digits_value(s.drop_last(), hex), digit_value(s.last(), hex)) {
            (Some(v), Some(d)) => Some(v * (if hex { 16nat } else { 10nat }) + d),
            _ => None,
        }
    }
}

/// An unsigned number as `from_str_radix` reads it: an optional `+`, then
/// at least one digit; `None` when that fails or the number exceeds `max`.
pub open spec fn parse_number(s: Seq<char>, hex: bool, max: nat) -> Option<nat> {
    let digits = if s.len() > 0 && s[0] == '+' {
        s.drop_first()
    } else {
        s
    };
    if digits.len() == 0 {
        None
    } else {
        match digits_value(digits, hex) {
            Some(v) => if v <= max {
                Some(v)
            } else {
                None
            },
            None => None,
        }
    }
}

pub open spec fn starts_with(t: Seq<char>, p: Seq<char>) -> bool {
    t.len() >= p.len() && t.take(p.len() as int) == p
}

/// The field that the words with prefix `p` give: `Some(None)` when there is
/// none, the value of the last one, and `None` when any of them does not
/// parse.
pub open spec fn scan_field(toks: Seq<Seq<char>>, p: Seq<char>, hex: bool, max: nat) -> Option<
    Option<nat>,
>
    decreases toks.len(),
{
    if toks.len() == 0 {
        Some(None)
    } else {
        let earlier = scan_field(toks.drop_last(), p, hex, max);
        let t = toks.last();
        if starts_with(t, p) {
            match (earlier, parse_number(t.skip(p.len() as int), hex, max)) {
                (Some(_), Some(v)) => Some(Some(v)),
                _ => None,
            }
        } else {
            earlier
        }
    }
}

/// A trace line read as `LogLine::from` reads it: the first word is the PC
/// in hexadecimal; of the other words, those starting with `A:`, `X:`,
/// `Y:`, `P:`, `SP:` give the registers in hexadecimal and `CYC:` the cycle
/// count in decimal (the last such word counts). `None` when a word does not
/// parse or a field is missing.
pub open spec fn parse_log_line(line: Seq<char>) -> Option<LogLine> {
    let toks = words(line);
    if toks.len() == 0 {
        None
    } else {
        let rest = toks.drop_first();
        match (
            parse_number(toks[0], true, 0xFFFF),
            scan_field(rest, seq!['A', ':'], true, 0xFF),
            scan_field(rest, seq!['X', ':'], true, 0xFF),
            scan_field(rest, seq!['Y', ':'], true, 0xFF),
            scan_field(rest, seq!['P', ':'], true, 0xFF),
            scan_field(rest, seq!['S', 'P', ':'], true, 0xFF),
            scan_field(rest, seq!['C', 'Y', 'C', ':'], false, usize::MAX as nat),
        ) {
            (
                Some(pc),
                Some(Some(a)),
                Some(Some(x)),
                Some(Some(y)),
                Some(Some(p)),
                Some(Some(sp)),
                Some(Some(cyc)),
            ) => Some(
                LogLine {
                    pc: pc as u16,
                    a: a as u8,
                    x: x as u8,
                    y: y as u8,
                    p: p as u8,
                    sp: sp as u8,
                    cyc: cyc as usize,
                },
            ),
            _ => None,
        }
    }
}

} // verus!

verus! {

/// The texts of the character ranges `r` of `s`.
pub open spec fn range_texts(s: Seq<char>, r: Seq<(usize, usize)>) -> Seq<Seq<char>> {
    r.map_values(|p: (usize, usize)| s.subrange(p.0 as int, p.1 as int))
}

proof fn lemma_words_space(s: Seq<char>, i: int)
    requires
        0 <= i < s.len(),
        is_space(s[i]),
    ensures
        words(s.skip(i)) == words(s.skip(i + 1)),
{
    assert(s.skip(i).drop_first() =~= s.skip(i + 1));
}

proof fn lemma_word_len_step(s: Seq<char>, i: int, j: int)
    requires
        0 <= i <= j < s.len(),
        !is_space(s[j]),
    ensures
        word_len(s.skip(j)) == 1 + word_len(s.skip(j + 1)),
{
    assert(s.skip(j).drop_first() =~= s.skip(j + 1));
}

proof fn lemma_words_word(s: Seq<char>, i: int, j: int)
    requires
        0 <= i < j <= s.len(),
        !is_space(s[i]),
        word_len(s.skip(i)) == j - i,
    ensures
        words(s.skip(i)) == seq![s.subrange(i, j)] + words(s.skip(j)),
{
    assert(s.skip(i).take(j - i) =~= s.subrange(i, j));
    assert(s.skip(i).skip(j - i) =~= s.skip(j));
}

/// The characters of `line`.
fn chars_of(line: &str) -> (r: Vec<char>)
    ensures
        r@ == line@,
{
    let n = line.unicode_len();
    let mut r: Vec<char> = Vec::new();
    let mut i: usize = 0;
    while i < n
        invariant
            i <= n,
            n == line@.len(),
            r@ == line@.take(i as int),
        decreases n - i,
    {
        r.push(line.get_char(i));
        i = i + 1;
        assert(r@ =~= line@.take(i as int));
    }
    assert(r@ =~= line@);
    r
}

fn is_space_char(c: char) -> (r: bool)
    ensures
        r == is_space(c),
{
    let u = c as u32;
    (0x09 <= u && u <= 0x0D) || u == 0x20 || u == 0x85 || u == 0xA0 || u == 0x1680 || (0x2000 <= u
        && u <= 0x200A) || u == 0x2028 || u == 0x2029 || u == 0x202F || u == 0x205F || u == 0x3000
}

/// The character ranges of the words of `s`.
fn split_words(s: &Vec<char>) -> (r: Vec<(usize, usize)>)
    ensures
        range_texts(s@, r@) == words(s@),
        forall|k: int| 0 <= k < r@.len() ==> #[trigger] r@[k].0 <= r@[k].1 <= s@.len(),
{
    let n = s.len();
    let mut r: Vec<(usize, usize)> = Vec::new();
    let mut i: usize = 0;
    assert(s@.skip(0) =~= s@);
    assert(range_texts(s@, r@) + words(s@) =~= words(s@));
    while i < n
        invariant
            i <= n,
            n == s@.len(),
            range_texts(s@, r@) + words(s@.skip(i as int)) == words(s@),
            forall|k: int| 0 <= k < r@.len() ==> #[trigger] r@[k].0 <= r@[k].1 <= s@.len(),
        decreases n - i,
    {
        if is_space_char(s[i]) {
            proof {
                lemma_words_space(s@, i as int);
            }
            i = i + 1;
        } else {
            let mut j: usize = i;
            while j < n && !is_space_char(s[j])
                invariant
                    i <= j <= n,
                    n == s@.len(),
                    word_len(s@.skip(i as int)) == (j - i) + word_len(s@.skip(j as int)),
                decreases n - j,
            {
                proof {
                    lemma_word_len_step(s@, i as int, j as int);
                }
                j = j + 1;
            }
            proof {
                assert(s@.skip(j as int).len() == 0 || is_space(s@.skip(j as int)[0]));
                lemma_words_word(s@, i as int, j as int);
                assert(range_texts(s@, r@.push((i, j))) =~= range_texts(s@, r@) + seq![
                    s@.subrange(i as int, j as int),
                ]);
            }
            r.push((i, j));
            i = j;
        }
    }
    assert(words(s@.skip(n as int)) =~= Seq::<Seq<char>>::empty()) by {
        assert(s@.skip(n as int).len() == 0);
    }
    assert(range_texts(s@, r@) + Seq::<Seq<char>>::empty() =~= range_texts(s@, r@));
    r
}

} // verus!

verus! {

/// A number's digits only grow it: a prefix that is not all digits spoils
/// the whole, and a prefix's value is at most the whole's.
proof fn lemma_digits_prefix(w: Seq<char>, k: int, hex: bool)
    requires
        0 <= k <= w.len(),
    ensures
        digits_value(w.take(k), hex) is None ==> digits_value(w, hex) is None,
        digits_value(w.take(k), hex) is Some && digits_value(w, hex) is Some ==> digits_value(
            w.take(k),
            hex,
        ).unwrap() <= digits_value(w, hex).unwrap(),
    decreases w.len() - k,
{
    if k == w.len() {
        assert(w.take(k) =~= w);
    } else {
        lemma_digits_prefix(w, k + 1, hex);
        assert(w.take(k + 1).drop_last() =~= w.take(k));
        assert(w.take(k + 1).last() == w[k]);
    }
}

fn digit_value_of(c: char, hex: bool) -> (r: Option<u64>)
    ensures
        match digit_value(c, hex) {
            Some(d) => r == Some(d as u64) && d < 16,
            None => r is None,
        },
{
    let u = c as u32;
    if 0x30 <= u && u <= 0x39 {
        Some((u - 0x30) as u64)
    } else if hex && 0x61 <= u && u <= 0x66 {
        Some((u - 0x61 + 10) as u64)
    } else if hex && 0x41 <= u && u <= 0x46 {
        Some((u - 0x41 + 10) as u64)
    } else {
        None
    }
}

/// Reads the characters `start..end` of `s` as `parse_number` does.
fn parse_number_at(s: &Vec<char>, start: usize, end: usize, hex: bool, max: u64) -> (r: Option<u64>)
    requires
        start <= end <= s@.len(),
    ensures
        match parse_number(s@.subrange(start as int, end as int), hex, max as nat) {
            Some(v) => r == Some(v as u64),
            None => r is None,
        },
{
    let ghost t = s@.subrange(start as int, end as int);
    let mut i: usize = start;
    if i < end && s[i] == '+' {
        i = i + 1;
    }
    let ghost digits = s@.subrange(i as int, end as int);
    assert(digits =~= (if t.len() > 0 && t[0] == '+' {
        t.drop_first()
    } else {
        t
    }));
    if i == end {
        return None;
    }
    let radix: u64 = if hex {
        16
    } else {
        10
    };
    let d0 = i;
    let mut value: u64 = 0;
    assert(digits.take(0) =~= Seq::<char>::empty());
    while i < end
        invariant
            d0 <= i <= end <= s@.len(),
            d0 < end,
            digits == s@.subrange(d0 as int, end as int),
            t == s@.subrange(start as int, end as int),
            digits == (if t.len() > 0 && t[0] == '+' {
                t.drop_first()
            } else {
                t
            }),
            radix == (if hex { 16u64 } else { 10u64 }),
            digits_value(digits.take(i - d0), hex) == Some(value as nat),
            value <= max,
        decreases end - i,
    {
        let ghost k = i - d0;
        proof {
            assert(digits.take(k + 1).drop_last() =~= digits.take(k));
            assert(digits.take(k + 1).last() == s@[i as int]);
        }
        match digit_value_of(s[i], hex) {
            None => {
                proof {
                    assert(digits_value(digits.take(k + 1), hex) is None);
                    lemma_digits_prefix(digits, k + 1, hex);
                }
                return None;
            },
            Some(d) => {
                proof {
                    assert(digits_value(digits.take(k + 1), hex) == Some(
                        (value * (if hex { 16nat } else { 10nat }) + d) as nat,
                    ));
                }
                if d > max {
                    proof {
                        lemma_digits_prefix(digits, k + 1, hex);
                    }
                    return None;
                }
                let limit = (max - d) / radix;
                if value > limit {
                    proof {
                        let (vi, ri, di, mi, li) = (
                            value as int,
                            radix as int,
                            d as int,
                            max as int,
                            limit as int,
                        );
                        assert(vi * ri + di > mi) by (nonlinear_arith)
                            requires
                                vi > li,
                                li == (mi - di) / ri,
                                ri > 0,
                                di <= mi,
                        ;
                        lemma_digits_prefix(digits, k + 1, hex);
                    }
                    return None;
                }
                proof {
                    let (vi, ri, di, mi, li) = (
                        value as int,
                        radix as int,
                        d as int,
                        max as int,
                        limit as int,
                    );
                    assert(vi * ri + di <= mi) by (nonlinear_arith)
                        requires
                            vi <= li,
                            li == (mi - di) / ri,
                            ri > 0,
                            di <= mi,
                    ;
                }
                value = value * radix + d;
            },
        }
        i = i + 1;
    }
    assert(digits.take(end - d0) =~= digits);
    Some(value)
}

} // verus!

verus! {

/// An optional number as a natural number.
pub open spec fn opt_nat(a: Option<u64>) -> Option<nat> {
    match a {
        Some(v) => Some(v as nat),
        None => None,
    }
}

/// Once a word spoils a field, longer lists of words spoil it too.
proof fn lemma_scan_spoiled(toks: Seq<Seq<char>>, j: int, p: Seq<char>, hex: bool, max: nat)
    requires
        0 <= j <= toks.len(),
        scan_field(toks.take(j), p, hex, max) is None,
    ensures
        scan_field(toks, p, hex, max) is None,
    decreases toks.len() - j,
{
    if j == toks.len() {
        assert(toks.take(j) =~= toks);
    } else {
        assert(toks.take(j + 1).drop_last() =~= toks.take(j));
        lemma_scan_spoiled(toks, j + 1, p, hex, max);
    }
}

/// Does the text `start..end` of `s` start with `p`?
fn has_prefix(s: &Vec<char>, start: usize, end: usize, p: &Vec<char>) -> (r: bool)
    requires
        start <= end <= s@.len(),
    ensures
        r == starts_with(s@.subrange(start as int, end as int), p@),
{
    let ghost t = s@.subrange(start as int, end as int);
    if end - start < p.len() {
        return false;
    }
    let mut i: usize = 0;
    while i < p.len()
        invariant
            i <= p@.len() <= end - start,
            start <= end <= s@.len(),
            t == s@.subrange(start as int, end as int),
            t.take(i as int) == p@.take(i as int),
        decreases p@.len() - i,
    {
        if s[start + i] != p[i] {
            assert(t.take(p@.len() as int)[i as int] != p@[i as int]);
            return false;
        }
        i = i + 1;
        assert(t.take(i as int) =~= p@.take(i as int));
    }
    assert(p@.take(p@.len() as int) =~= p@);
    true
}

/// Reads the word `start..end` of `s` into `acc` when it starts with
/// `prefix`; returns false when such a word does not parse.
fn read_field(
    s: &Vec<char>,
    start: usize,
    end: usize,
    prefix: &Vec<char>,
    hex: bool,
    max: u64,
    acc: &mut Option<u64>,
) -> (ok: bool)
    requires
        start <= end <= s@.len(),
    ensures
        ({
            let t = s@.subrange(start as int, end as int);
            &&& ok == (starts_with(t, prefix@) ==> parse_number(
                t.skip(prefix@.len() as int),
                hex,
                max as nat,
            ) is Some)
            &&& ok ==> opt_nat(*final(acc)) == if starts_with(t, prefix@) {
                parse_number(t.skip(prefix@.len() as int), hex, max as nat)
            } else {
                opt_nat(*old(acc))
            }
        }),
{
    let ghost t = s@.subrange(start as int, end as int);
    if has_prefix(s, start, end, prefix) {
        assert(t.skip(prefix@.len() as int) =~= s@.subrange(start + prefix@.len(), end as int));
        match parse_number_at(s, start + prefix.len(), end, hex, max) {
            Some(v) => {
                *acc = Some(v);
                true
            },
            None => false,
        }
    } else {
        true
    }
}

/// One word's step of a field scan.
proof fn lemma_scan_step(
    toks: Seq<Seq<char>>,
    k: int,
    p: Seq<char>,
    hex: bool,
    max: nat,
    before: Option<u64>,
    after: Option<u64>,
    ok: bool,
)
    requires
        0 <= k < toks.len(),
        scan_field(toks.take(k), p, hex, max) == Some(opt_nat(before)),
        ok == (starts_with(toks[k], p) ==> parse_number(toks[k].skip(p.len() as int), hex, max) is Some),
        ok ==> opt_nat(after) == if starts_with(toks[k], p) {
            parse_number(toks[k].skip(p.len() as int), hex, max)
        } else {
            opt_nat(before)
        },
    ensures
        ok ==> scan_field(toks.take(k + 1), p, hex, max) == Some(opt_nat(after)),
        !ok ==> scan_field(toks, p, hex, max) is None,
{
    assert(toks.take(k + 1).drop_last() =~= toks.take(k));
    assert(toks.take(k + 1).last() == toks[k]);
    if !ok {
        lemma_scan_spoiled(toks, k + 1, p, hex, max);
    }
}

impl LogLine {
    /// Reads a trace line (see `parse_log_line`); `None` for a line that
    /// lacks a field or holds a word that does not parse.
    pub fn from(line: &str) -> (r: Option<Self>)
        ensures
            r == parse_log_line(line@),
    {
        let chars = chars_of(line);
        let toks = split_words(&chars);
        let ghost all = words(chars@);
        assert(all.len() == toks@.len());
        if toks.len() == 0 {
            return None;
        }
        let ghost rest = all.drop_first();
        assert(all[0] == chars@.subrange(toks@[0].0 as int, toks@[0].1 as int));
        let pc = match parse_number_at(&chars, toks[0].0, toks[0].1, true, 0xFFFF) {
            Some(v) => v,
            None => {
                return None;
            },
        };
        let pa: Vec<char> = vec!['A', ':'];
        let px: Vec<char> = vec!['X', ':'];
        let py: Vec<char> = vec!['Y', ':'];
        let pp: Vec<char> = vec!['P', ':'];
        let psp: Vec<char> = vec!['S', 'P', ':'];
        let pcyc: Vec<char> = vec!['C', 'Y', 'C', ':'];
        assert(pa@ =~= seq!['A', ':']);
        assert(px@ =~= seq!['X', ':']);
        assert(py@ =~= seq!['Y', ':']);
        assert(pp@ =~= seq!['P', ':']);
        assert(psp@ =~= seq!['S', 'P', ':']);
        assert(pcyc@ =~= seq!['C', 'Y', 'C', ':']);
        let mut a: Option<u64> = None;
        let mut x: Option<u64> = None;
        let mut y: Option<u64> = None;
        let mut p: Option<u64> = None;
        let mut sp: Option<u64> = None;
        let mut cyc: Option<u64> = None;
        let mut k: usize = 1;
        assert(rest.take(0) =~= Seq::<Seq<char>>::empty());
        while k < toks.len()
            invariant
                1 <= k <= toks@.len(),
                range_texts(chars@, toks@) == all,
                forall|j: int| 0 <= j < toks@.len() ==> #[trigger] toks@[j].0 <= toks@[j].1 <= chars@.len(),
                rest == all.drop_first(),
                pa@ == seq!['A', ':'],
                px@ == seq!['X', ':'],
                py@ == seq!['Y', ':'],
                pp@ == seq!['P', ':'],
                psp@ == seq!['S', 'P', ':'],
                pcyc@ == seq!['C', 'Y', 'C', ':'],
                all == words(line@),
                all.len() == toks@.len(),
                parse_number(all[0], true, 0xFFFF) == Some(pc as nat),
                scan_field(rest.take(k - 1), pa@, true, 0xFF) == Some(opt_nat(a)),
                scan_field(rest.take(k - 1), px@, true, 0xFF) == Some(opt_nat(x)),
                scan_field(rest.take(k - 1), py@, true, 0xFF) == Some(opt_nat(y)),
                scan_field(rest.take(k - 1), pp@, true, 0xFF) == Some(opt_nat(p)),
                scan_field(rest.take(k - 1), psp@, true, 0xFF) == Some(opt_nat(sp)),
                scan_field(rest.take(k - 1), pcyc@, false, usize::MAX as nat) == Some(opt_nat(cyc)),
            decreases toks@.len() - k,
        {
            let (s, e) = toks[k];
            let ghost j = k - 1;
            assert(rest[j] == chars@.subrange(s as int, e as int));
            let ghost (a0, x0, y0, p0, sp0, cyc0) = (a, x, y, p, sp, cyc);
            let ok = read_field(&chars, s, e, &pa, true, 0xFF, &mut a);
            proof {
                lemma_scan_step(rest, j, pa@, true, 0xFF, a0, a, ok);
            }
            if !ok {
                return None;
            }
            let ok = read_field(&chars, s, e, &px, true, 0xFF, &mut x);
            proof {
                lemma_scan_step(rest, j, px@, true, 0xFF, x0, x, ok);
            }
            if !ok {
                return None;
            }
            let ok = read_field(&chars, s, e, &py, true, 0xFF, &mut y);
            proof {
                lemma_scan_step(rest, j, py@, true, 0xFF, y0, y, ok);
            }
            if !ok {
                return None;
            }
            let ok = read_field(&chars, s, e, &pp, true, 0xFF, &mut p);
            proof {
                lemma_scan_step(rest, j, pp@, true, 0xFF, p0, p, ok);
            }
            if !ok {
                return None;
            }
            let ok = read_field(&chars, s, e, &psp, true, 0xFF, &mut sp);
            proof {
                lemma_scan_step(rest, j, psp@, true, 0xFF, sp0, sp, ok);
            }
            if !ok {
                return None;
            }
            let ok = read_field(&chars, s, e, &pcyc, false, usize::MAX as u64, &mut cyc);
            proof {
                lemma_scan_step(rest, j, pcyc@, false, usize::MAX as nat, cyc0, cyc, ok);
            }
            if !ok {
                return None;
            }
            k = k + 1;
        }
        assert(rest.take(k - 1) =~= rest);
        assert(parse_number(all[0], true, 0xFFFF) == Some(pc as nat));
        match (a, x, y, p, sp, cyc) {
            (Some(a), Some(x), Some(y), Some(p), Some(sp), Some(cyc)) => Some(
                LogLine {
                    pc: pc as u16,
                    a: a as u8,
                    x: x as u8,
                    y: y as u8,
                    p: p as u8,
                    sp: sp as u8,
                    cyc: cyc as usize,
                },
            ),
            _ => None,
        }
    }
}

} // verus!

verus! {

proof fn lemma_hex_digit_value(d: int)
    requires
        0 <= d < 16,
    ensures
        digit_value(hex_digit(d), true) == Some(d as nat),
        d < 10 ==> digit_value(hex_digit(d), false) == Some(d as nat),
{
    let digits = seq!['0', '1', '2', '3', '4', '5', '6', '7', '8', '9', 'A', 'B', 'C', 'D', 'E', 'F'];
    assert(hex_digit(d) == digits[d]);
}

proof fn lemma_hex_round_trip(value: nat, width: nat)
    ensures
        value < vstd::arithmetic::power::pow(16, width) ==> digits_value(hex_text(value, width), true)
            == Some(value),
    decreases width,
{
    if width > 0 {
        lemma_hex_round_trip(value / 16, (width - 1) as nat);
        lemma_hex_digit_value((value % 16) as int);
        let t = hex_text(value, width);
        assert(t.drop_last() == hex_text(value / 16, (width - 1) as nat));
        if value < vstd::arithmetic::power::pow(16, width) {
            vstd::arithmetic::power::lemma_pow_positive(16, (width - 1) as nat);
            assert(vstd::arithmetic::power::pow(16, width) == 16 * vstd::arithmetic::power::pow(
                16,
                (width - 1) as nat,
            )) by {
                vstd::arithmetic::power::lemma_pow_adds(16, 1, (width - 1) as nat);
                vstd::arithmetic::power::lemma_pow1(16);
            }
            assert(value / 16 < vstd::arithmetic::power::pow(16, (width - 1) as nat));
        }
    } else {
        assert(value < vstd::arithmetic::power::pow(16, 0) ==> value == 0) by {
            vstd::arithmetic::power::lemma_pow0(16);
        }
        assert(hex_text(value, 0) =~= Seq::<char>::empty());
    }
}

proof fn lemma_decimal_round_trip(value: nat)
    ensures
        digits_value(decimal_text(value), false) == Some(value),
    decreases value,
{
    let t = decimal_text(value);
    if value >= 10 {
        lemma_decimal_round_trip(value / 10);
        lemma_hex_digit_value((value % 10) as int);
        assert(t.drop_last() == decimal_text(value / 10));
        assert(t.last() == hex_digit((value % 10) as int));
        assert((value / 10) * 10 + value % 10 == value);
        assert(t.len() > 0);
        assert(digits_value(t.drop_last(), false) == Some(value / 10));
        assert(digit_value(t.last(), false) == Some(value % 10));
    } else {
        lemma_hex_digit_value(value as int);
        assert(t.drop_last() =~= Seq::<char>::empty());
        assert(t.last() == hex_digit(value as int));
        assert(t.len() > 0);
        assert(digits_value(t.drop_last(), false) == Some(0nat));
        assert(digit_value(t.last(), false) == Some(value));
    }
}

/// Numbers written out read back: `width` hexadecimal digits of a value
/// below 16^width, and the decimal digits of any value.
pub proof fn law_number_text_round_trip(value: nat, width: nat)
    ensures
        value < vstd::arithmetic::power::pow(16, width) ==> digits_value(hex_text(value, width), true)
            == Some(value),
        digits_value(decimal_text(value), false) == Some(value),
{
    lemma_hex_round_trip(value, width);
    lemma_decimal_round_trip(value);
}

} // verus!
