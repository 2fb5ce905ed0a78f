//! The debugger's core: the line-oriented command grammar and the
//! instruction formatter.
//!
//! Commands: `step` or `s`, optionally followed by whitespace and a
//! count; `exit`, `quit`, `e` or `q`; an empty line repeats the last
//! command. Each step formats the instruction under the program counter
//! as four hex digits of address, the mnemonic, and the operand written
//! per addressing mode. All observation goes through the side-effect-free
//! peek path, so inspecting the machine never disturbs it.

use vstd::prelude::*;

use crate::bus::Bus;
use crate::cpu::Cpu;
use crate::error::Error;
use crate::instruction::AddressMode;
use crate::instruction::Mnemonic;
use crate::instruction::decode_s;
use crate::instruction::operand_len_s;
use crate::interconnect::IcView;
use crate::interconnect::Interconnect;
use crate::nes::Nes;
use crate::util::word_s;

verus! {

/// One debugger command.
#[derive(Clone, Copy, Debug, PartialEq, Eq, Structural)]
pub enum Command {
    Exit,
    Step(usize),
    Repeat,
}

/// Whether a byte is horizontal whitespace.
pub open spec fn is_ws_s(b: u8) -> bool {
    b == 0x20 || b == 0x09
}

/// Whether a byte is an ASCII decimal digit.
pub open spec fn is_digit_s(b: u8) -> bool {
    0x30 <= b <= 0x39
}

/// Whether every byte from `k` to the end is a decimal digit.
pub open spec fn all_digits_from_s(s: Seq<u8>, k: int) -> bool {
    forall|i: int| k <= i < s.len() ==> is_digit_s(#[trigger] s[i])
}

/// The number a digit string denotes, most significant digit first.
pub open spec fn digits_val_s(s: Seq<u8>) -> int
    decreases s.len(),
{
    if s.len() == 0 {
        0
    } else {
        digits_val_s(s.drop_last()) * 10 + (s.last() - 0x30)
    }
}

/// The first position at or after `i` that is not whitespace.
pub open spec fn first_non_ws_s(s: Seq<u8>, i: int) -> int
    decreases s.len() - i,
{
    if i < 0 || i >= s.len() {
        i
    } else if is_ws_s(s[i]) {
        first_non_ws_s(s, i + 1)
    } else {
        i
    }
}

/// The step count written after position `from`: nothing means one;
/// otherwise at least one whitespace byte, then at least one digit,
/// denoting a value that fits in usize. Anything else is no command.
pub open spec fn step_count_s(s: Seq<u8>, from: int) -> Option<usize>
    recommends
        0 <= from <= s.len(),
{
    if from == s.len() {
        Some(1usize)
    } else {
        let k = first_non_ws_s(s, from);
        if k > from && k < s.len() && all_digits_from_s(s, k) && digits_val_s(
            s.subrange(k, s.len() as int),
        ) <= usize::MAX {
            Some(digits_val_s(s.subrange(k, s.len() as int)) as usize)
        } else {
            None
        }
    }
}

/// The command a trimmed input line denotes: the grammar of the
/// debugger prompt.
pub open spec fn command_of_s(s: Seq<u8>) -> Option<Command> {
    if s.len() == 0 {
        Some(Command::Repeat)
    } else if s.len() >= 4 && s[0] == 0x73 && s[1] == 0x74 && s[2] == 0x65 && s[3] == 0x70 {
        match step_count_s(s, 4) {
            Some(n) => Some(Command::Step(n)),
            None => None,
        }
    } else if s[0] == 0x73 {
        match step_count_s(s, 1) {
            Some(n) => Some(Command::Step(n)),
            None => None,
        }
    } else if s.len() == 4 && s[0] == 0x65 && s[1] == 0x78 && s[2] == 0x69 && s[3] == 0x74 {
        Some(Command::Exit)
    } else if s.len() == 4 && s[0] == 0x71 && s[1] == 0x75 && s[2] == 0x69 && s[3] == 0x74 {
        Some(Command::Exit)
    } else if s.len() == 1 && (s[0] == 0x65 || s[0] == 0x71) {
        Some(Command::Exit)
    } else {
        None
    }
}

fn is_ws(b: u8) -> (r: bool)
    ensures
        r == is_ws_s(b),
{
    b == 0x20 || b == 0x09
}

fn is_digit(b: u8) -> (r: bool)
    ensures
        r == is_digit_s(b),
{
    0x30 <= b && b <= 0x39
}

fn first_non_ws(input: &[u8], i: usize) -> (r: usize)
    requires
        i <= input@.len(),
    ensures
        r == first_non_ws_s(input@, i as int),
        i <= r <= input@.len(),
    decreases input@.len() - i,
{
    if i == input.len() {
        i
    } else if is_ws(input[i]) {
        first_non_ws(input, i + 1)
    } else {
        i
    }
}

/// Every digit string only grows when digits are appended.
proof fn lemma_digits_val_nonneg(s: Seq<u8>, k: int, j: int)
    requires
        0 <= k <= j <= s.len(),
        forall|i: int| k <= i < j ==> is_digit_s(#[trigger] s[i]),
    ensures
        digits_val_s(s.subrange(k, j)) >= 0,
    decreases j - k,
{
    if j > k {
        lemma_digits_val_nonneg(s, k, j - 1);
        assert(s.subrange(k, j).drop_last() =~= s.subrange(k, j - 1));
        assert(s.subrange(k, j).last() == s[j - 1]);
    }
}

proof fn lemma_digits_val_mono(s: Seq<u8>, k: int, j: int, m: int)
    requires
        0 <= k <= j <= m <= s.len(),
        forall|i: int| k <= i < m ==> is_digit_s(#[trigger] s[i]),
    ensures
        digits_val_s(s.subrange(k, m)) >= digits_val_s(s.subrange(k, j)),
    decreases m - j,
{
    if j < m {
        lemma_digits_val_mono(s, k, j, m - 1);
        lemma_digits_val_nonneg(s, k, m - 1);
        assert(s.subrange(k, m).drop_last() =~= s.subrange(k, m - 1));
        assert(s.subrange(k, m).last() == s[m - 1]);
    }
}

fn step_count(input: &[u8], from: usize) -> (r: Option<usize>)
    requires
        from <= input@.len(),
    ensures
        r == step_count_s(input@, from as int),
{
    let n = input.len();
    if from == n {
        return Some(1);
    }
    let k = first_non_ws(input, from);
    if k == from || k == n {
        return None;
    }
    let ghost whole = input@.subrange(k as int, n as int);
    let mut acc: usize = 0;
    let mut j: usize = k;
    while j < n
        invariant
            k <= j <= n,
            n == input@.len(),
            from < k < n,
            k == first_non_ws_s(input@, from as int),
            whole == input@.subrange(k as int, n as int),
            forall|i: int| k <= i < j ==> is_digit_s(#[trigger] input@[i]),
            acc == digits_val_s(input@.subrange(k as int, j as int)),
        decreases n - j,
    {
        let b = input[j];
        if !is_digit(b) {
            return None;
        }
        proof {
            assert(input@.subrange(k as int, j + 1).drop_last() =~= input@.subrange(
                k as int,
                j as int,
            ));
            assert(input@.subrange(k as int, j + 1).last() == input@[j as int]);
        }
        let d = (b - 0x30) as usize;
        let next = match acc.checked_mul(10) {
            Some(t) => match t.checked_add(d) {
                Some(u) => u,
                None => {
                    proof {
                        if all_digits_from_s(input@, k as int) {
                            lemma_digits_val_mono(input@, k as int, j + 1, n as int);
                        }
                    }
                    return None;
                },
            },
            None => {
                proof {
                    if all_digits_from_s(input@, k as int) {
                        lemma_digits_val_mono(input@, k as int, j + 1, n as int);
                    }
                }
                return None;
            },
        };
        acc = next;
        j = j + 1;
    }
    Some(acc)
}

impl Command {
    /// Parse one trimmed input line per the prompt grammar. `None`
    /// means the line names no command.
    pub fn parse(input: &[u8]) -> (r: Option<Command>)
        ensures
            r == command_of_s(input@),
    {
        let n = input.len();
        if n == 0 {
            return Some(Command::Repeat);
        }
        if n >= 4 && input[0] == 0x73 && input[1] == 0x74 && input[2] == 0x65 && input[3] == 0x70 {
            return match step_count(input, 4) {
                Some(c) => Some(Command::Step(c)),
                None => None,
            };
        }
        if input[0] == 0x73 {
            return match step_count(input, 1) {
                Some(c) => Some(Command::Step(c)),
                None => None,
            };
        }
        if n == 4 && input[0] == 0x65 && input[1] == 0x78 && input[2] == 0x69 && input[3] == 0x74 {
            return Some(Command::Exit);
        }
        if n == 4 && input[0] == 0x71 && input[1] == 0x75 && input[2] == 0x69 && input[3] == 0x74 {
            return Some(Command::Exit);
        }
        if n == 1 && (input[0] == 0x65 || input[0] == 0x71) {
            return Some(Command::Exit);
        }
        None
    }
}

/// The lower-case hex digit for a value below sixteen.
pub open spec fn hex_digit_s(n: int) -> u8 {
    if n < 10 {
        (0x30 + n) as u8
    } else {
        (0x57 + n) as u8
    }
}

fn hex_digit(n: u8) -> (r: u8)
    requires
        n < 16,
    ensures
        r == hex_digit_s(n as int),
{
    if n < 10 {
        0x30 + n
    } else {
        0x57 + n
    }
}

/// Two lower-case hex digits of a byte.
pub open spec fn hex2_s(b: u8) -> Seq<u8> {
    seq![hex_digit_s(b as int / 16), hex_digit_s(b as int % 16)]
}

/// Four lower-case hex digits of a word.
pub open spec fn hex4_s(w: u16) -> Seq<u8> {
    seq![
        hex_digit_s(w as int / 4096),
        hex_digit_s(w as int / 256 % 16),
        hex_digit_s(w as int / 16 % 16),
        hex_digit_s(w as int % 16),
    ]
}

fn push_hex2(v: &mut Vec<u8>, b: u8)
    ensures
        final(v)@ == old(v)@ + hex2_s(b),
{
    v.push(hex_digit(b / 16));
    v.push(hex_digit(b % 16));
    proof {
        assert(v@ =~= old(v)@ + hex2_s(b));
    }
}

fn push_hex4(v: &mut Vec<u8>, w: u16)
    ensures
        final(v)@ == old(v)@ + hex4_s(w),
{
    v.push(hex_digit((w / 4096) as u8));
    v.push(hex_digit((w / 256 % 16) as u8));
    v.push(hex_digit((w / 16 % 16) as u8));
    v.push(hex_digit((w % 16) as u8));
    proof {
        assert(v@ =~= old(v)@ + hex4_s(w));
    }
}

/// The three-letter mnemonic text.
pub open spec fn mnemonic_text_s(m: Mnemonic) -> Seq<u8> {
    match m {
        Mnemonic::ADC => seq![0x41u8, 0x44, 0x43],
        Mnemonic::AND => seq![0x41u8, 0x4e, 0x44],
        Mnemonic::ASL => seq![0x41u8, 0x53, 0x4c],
        Mnemonic::BCC => seq![0x42u8, 0x43, 0x43],
        Mnemonic::BCS => seq![0x42u8, 0x43, 0x53],
        Mnemonic::BEQ => seq![0x42u8, 0x45, 0x51],
        Mnemonic::BIT => seq![0x42u8, 0x49, 0x54],
        Mnemonic::BMI => seq![0x42u8, 0x4d, 0x49],
        Mnemonic::BNE => seq![0x42u8, 0x4e, 0x45],
        Mnemonic::BPL => seq![0x42u8, 0x50, 0x4c],
        Mnemonic::BRK => seq![0x42u8, 0x52, 0x4b],
        Mnemonic::BVC => seq![0x42u8, 0x56, 0x43],
        Mnemonic::BVS => seq![0x42u8, 0x56, 0x53],
        Mnemonic::CLC => seq![0x43u8, 0x4c, 0x43],
        Mnemonic::CLD => seq![0x43u8, 0x4c, 0x44],
        Mnemonic::CLI => seq![0x43u8, 0x4c, 0x49],
        Mnemonic::CLV => seq![0x43u8, 0x4c, 0x56],
        Mnemonic::CMP => seq![0x43u8, 0x4d, 0x50],
        Mnemonic::CPX => seq![0x43u8, 0x50, 0x58],
        Mnemonic::CPY => seq![0x43u8, 0x50, 0x59],
        Mnemonic::DEC => seq![0x44u8, 0x45, 0x43],
        Mnemonic::DEX => seq![0x44u8, 0x45, 0x58],
        Mnemonic::DEY => seq![0x44u8, 0x45, 0x59],
        Mnemonic::EOR => seq![0x45u8, 0x4f, 0x52],
        Mnemonic::INC => seq![0x49u8, 0x4e, 0x43],
        Mnemonic::INX => seq![0x49u8, 0x4e, 0x58],
        Mnemonic::INY => seq![0x49u8, 0x4e, 0x59],
        Mnemonic::JMP => seq![0x4au8, 0x4d, 0x50],
        Mnemonic::JSR => seq![0x4au8, 0x53, 0x52],
        Mnemonic::LDA => seq![0x4cu8, 0x44, 0x41],
        Mnemonic::LDX => seq![0x4cu8, 0x44, 0x58],
        Mnemonic::LDY => seq![0x4cu8, 0x44, 0x59],
        Mnemonic::LSR => seq![0x4cu8, 0x53, 0x52],
        Mnemonic::NOP => seq![0x4eu8, 0x4f, 0x50],
        Mnemonic::ORA => seq![0x4fu8, 0x52, 0x41],
        Mnemonic::PHA => seq![0x50u8, 0x48, 0x41],
        Mnemonic::PHP => seq![0x50u8, 0x48, 0x50],
        Mnemonic::PLA => seq![0x50u8, 0x4c, 0x41],
        Mnemonic::PLP => seq![0x50u8, 0x4c, 0x50],
        Mnemonic::ROL => seq![0x52u8, 0x4f, 0x4c],
        Mnemonic::ROR => seq![0x52u8, 0x4f, 0x52],
        Mnemonic::RTI => seq![0x52u8, 0x54, 0x49],
        Mnemonic::RTS => seq![0x52u8, 0x54, 0x53],
        Mnemonic::SBC => seq![0x53u8, 0x42, 0x43],
        Mnemonic::SEC => seq![0x53u8, 0x45, 0x43],
        Mnemonic::SED => seq![0x53u8, 0x45, 0x44],
        Mnemonic::SEI => seq![0x53u8, 0x45, 0x49],
        Mnemonic::STA => seq![0x53u8, 0x54, 0x41],
        Mnemonic::STX => seq![0x53u8, 0x54, 0x58],
        Mnemonic::STY => seq![0x53u8, 0x54, 0x59],
        Mnemonic::TAX => seq![0x54u8, 0x41, 0x58],
        Mnemonic::TAY => seq![0x54u8, 0x41, 0x59],
        Mnemonic::TSX => seq![0x54u8, 0x53, 0x58],
        Mnemonic::TXA => seq![0x54u8, 0x58, 0x41],
        Mnemonic::TXS => seq![0x54u8, 0x58, 0x53],
        Mnemonic::TYA => seq![0x54u8, 0x59, 0x41],
    }
}

fn push_mnemonic(v: &mut Vec<u8>, m: Mnemonic)
    ensures
        final(v)@ == old(v)@ + mnemonic_text_s(m),
{
    match m {
        Mnemonic::ADC => {
            v.push(0x41);
            v.push(0x44);
            v.push(0x43);
        },
        Mnemonic::AND => {
            v.push(0x41);
            v.push(0x4e);
            v.push(0x44);
        },
        Mnemonic::ASL => {
            v.push(0x41);
            v.push(0x53);
            v.push(0x4c);
        },
        Mnemonic::BCC => {
            v.push(0x42);
            v.push(0x43);
            v.push(0x43);
        },
        Mnemonic::BCS => {
            v.push(0x42);
            v.push(0x43);
            v.push(0x53);
        },
        Mnemonic::BEQ => {
            v.push(0x42);
            v.push(0x45);
            v.push(0x51);
        },
        Mnemonic::BIT => {
            v.push(0x42);
            v.push(0x49);
            v.push(0x54);
        },
        Mnemonic::BMI => {
            v.push(0x42);
            v.push(0x4d);
            v.push(0x49);
        },
        Mnemonic::BNE => {
            v.push(0x42);
            v.push(0x4e);
            v.push(0x45);
        },
        Mnemonic::BPL => {
            v.push(0x42);
            v.push(0x50);
            v.push(0x4c);
        },
        Mnemonic::BRK => {
            v.push(0x42);
            v.push(0x52);
            v.push(0x4b);
        },
        Mnemonic::BVC => {
            v.push(0x42);
            v.push(0x56);
            v.push(0x43);
        },
        Mnemonic::BVS => {
            v.push(0x42);
            v.push(0x56);
            v.push(0x53);
        },
        Mnemonic::CLC => {
            v.push(0x43);
            v.push(0x4c);
            v.push(0x43);
        },
        Mnemonic::CLD => {
            v.push(0x43);
            v.push(0x4c);
            v.push(0x44);
        },
        Mnemonic::CLI => {
            v.push(0x43);
            v.push(0x4c);
            v.push(0x49);
        },
        Mnemonic::CLV => {
            v.push(0x43);
            v.push(0x4c);
            v.push(0x56);
        },
        Mnemonic::CMP => {
            v.push(0x43);
            v.push(0x4d);
            v.push(0x50);
        },
        Mnemonic::CPX => {
            v.push(0x43);
            v.push(0x50);
            v.push(0x58);
        },
        Mnemonic::CPY => {
            v.push(0x43);
            v.push(0x50);
            v.push(0x59);
        },
        Mnemonic::DEC => {
            v.push(0x44);
            v.push(0x45);
            v.push(0x43);
        },
        Mnemonic::DEX => {
            v.push(0x44);
            v.push(0x45);
            v.push(0x58);
        },
        Mnemonic::DEY => {
            v.push(0x44);
            v.push(0x45);
            v.push(0x59);
        },
        Mnemonic::EOR => {
            v.push(0x45);
            v.push(0x4f);
            v.push(0x52);
        },
        Mnemonic::INC => {
            v.push(0x49);
            v.push(0x4e);
            v.push(0x43);
        },
        Mnemonic::INX => {
            v.push(0x49);
            v.push(0x4e);
            v.push(0x58);
        },
        Mnemonic::INY => {
            v.push(0x49);
            v.push(0x4e);
            v.push(0x59);
        },
        Mnemonic::JMP => {
            v.push(0x4a);
            v.push(0x4d);
            v.push(0x50);
        },
        Mnemonic::JSR => {
            v.push(0x4a);
            v.push(0x53);
            v.push(0x52);
        },
        Mnemonic::LDA => {
            v.push(0x4c);
            v.push(0x44);
            v.push(0x41);
        },
        Mnemonic::LDX => {
            v.push(0x4c);
            v.push(0x44);
            v.push(0x58);
        },
        Mnemonic::LDY => {
            v.push(0x4c);
            v.push(0x44);
            v.push(0x59);
        },
        Mnemonic::LSR => {
            v.push(0x4c);
            v.push(0x53);
            v.push(0x52);
        },
        Mnemonic::NOP => {
            v.push(0x4e);
            v.push(0x4f);
            v.push(0x50);
        },
        Mnemonic::ORA => {
            v.push(0x4f);
            v.push(0x52);
            v.push(0x41);
        },
        Mnemonic::PHA => {
            v.push(0x50);
            v.push(0x48);
            v.push(0x41);
        },
        Mnemonic::PHP => {
            v.push(0x50);
            v.push(0x48);
            v.push(0x50);
        },
        Mnemonic::PLA => {
            v.push(0x50);
            v.push(0x4c);
            v.push(0x41);
        },
        Mnemonic::PLP => {
            v.push(0x50);
            v.push(0x4c);
            v.push(0x50);
        },
        Mnemonic::ROL => {
            v.push(0x52);
            v.push(0x4f);
            v.push(0x4c);
        },
        Mnemonic::ROR => {
            v.push(0x52);
            v.push(0x4f);
            v.push(0x52);
        },
        Mnemonic::RTI => {
            v.push(0x52);
            v.push(0x54);
            v.push(0x49);
        },
        Mnemonic::RTS => {
            v.push(0x52);
            v.push(0x54);
            v.push(0x53);
        },
        Mnemonic::SBC => {
            v.push(0x53);
            v.push(0x42);
            v.push(0x43);
        },
        Mnemonic::SEC => {
            v.push(0x53);
            v.push(0x45);
            v.push(0x43);
        },
        Mnemonic::SED => {
            v.push(0x53);
            v.push(0x45);
            v.push(0x44);
        },
        Mnemonic::SEI => {
            v.push(0x53);
            v.push(0x45);
            v.push(0x49);
        },
        Mnemonic::STA => {
            v.push(0x53);
            v.push(0x54);
            v.push(0x41);
        },
        Mnemonic::STX => {
            v.push(0x53);
            v.push(0x54);
            v.push(0x58);
        },
        Mnemonic::STY => {
            v.push(0x53);
            v.push(0x54);
            v.push(0x59);
        },
        Mnemonic::TAX => {
            v.push(0x54);
            v.push(0x41);
            v.push(0x58);
        },
        Mnemonic::TAY => {
            v.push(0x54);
            v.push(0x41);
            v.push(0x59);
        },
        Mnemonic::TSX => {
            v.push(0x54);
            v.push(0x53);
            v.push(0x58);
        },
        Mnemonic::TXA => {
            v.push(0x54);
            v.push(0x58);
            v.push(0x41);
        },
        Mnemonic::TXS => {
            v.push(0x54);
            v.push(0x58);
            v.push(0x53);
        },
        Mnemonic::TYA => {
            v.push(0x54);
            v.push(0x59);
            v.push(0x41);
        },
    }
    proof {
        assert(v@ =~= old(v)@ + mnemonic_text_s(m));
    }
}

/// The operand text per addressing mode: `$hhhh`, `$hhhh,X`, `$hhhh,Y`,
/// `#$hh`, `$hh`, `$hh,X`, `$hh,Y`, `($hhhh)`, `($hh,X)`, `($hh),Y`, or
/// nothing for Accumulator and Implied. Word modes use `w`; byte modes
/// use `b`.
pub open spec fn operand_text_s(mode: AddressMode, w: u16, b: u8) -> Seq<u8> {
    match mode {
        AddressMode::Accumulator => Seq::<u8>::empty(),
        AddressMode::Implied => Seq::<u8>::empty(),
        AddressMode::Absolute => seq![0x24u8] + hex4_s(w),
        AddressMode::AbsoluteXIndexed => seq![0x24u8] + hex4_s(w) + seq![0x2cu8, 0x58],
        AddressMode::AbsoluteYIndexed => seq![0x24u8] + hex4_s(w) + seq![0x2cu8, 0x59],
        AddressMode::Immediate => seq![0x23u8, 0x24] + hex2_s(b),
        AddressMode::Indirect => seq![0x28u8, 0x24] + hex4_s(w) + seq![0x29u8],
        AddressMode::XIndexedIndirect => seq![0x28u8, 0x24] + hex2_s(b) + seq![0x2cu8, 0x58, 0x29],
        AddressMode::IndirectYIndexed => seq![0x28u8, 0x24] + hex2_s(b) + seq![0x29u8, 0x2c, 0x59],
        AddressMode::Relative => seq![0x24u8] + hex2_s(b),
        AddressMode::ZeroPage => seq![0x24u8] + hex2_s(b),
        AddressMode::ZeroPageXIndexed => seq![0x24u8] + hex2_s(b) + seq![0x2cu8, 0x58],
        AddressMode::ZeroPageYIndexed => seq![0x24u8] + hex2_s(b) + seq![0x2cu8, 0x59],
    }
}

fn push_operand(v: &mut Vec<u8>, mode: AddressMode, w: u16, b: u8)
    ensures
        final(v)@ == old(v)@ + operand_text_s(mode, w, b),
{
    match mode {
        AddressMode::Accumulator => {
        },
        AddressMode::Implied => {
        },
        AddressMode::Absolute => {
            v.push(0x24);
            push_hex4(v, w);
        },
        AddressMode::AbsoluteXIndexed => {
            v.push(0x24);
            push_hex4(v, w);
            v.push(0x2c);
            v.push(0x58);
        },
        AddressMode::AbsoluteYIndexed => {
            v.push(0x24);
            push_hex4(v, w);
            v.push(0x2c);
            v.push(0x59);
        },
        AddressMode::Immediate => {
            v.push(0x23);
            v.push(0x24);
            push_hex2(v, b);
        },
        AddressMode::Indirect => {
            v.push(0x28);
            v.push(0x24);
            push_hex4(v, w);
            v.push(0x29);
        },
        AddressMode::XIndexedIndirect => {
            v.push(0x28);
            v.push(0x24);
            push_hex2(v, b);
            v.push(0x2c);
            v.push(0x58);
            v.push(0x29);
        },
        AddressMode::IndirectYIndexed => {
            v.push(0x28);
            v.push(0x24);
            push_hex2(v, b);
            v.push(0x29);
            v.push(0x2c);
            v.push(0x59);
        },
        AddressMode::Relative => {
            v.push(0x24);
            push_hex2(v, b);
        },
        AddressMode::ZeroPage => {
            v.push(0x24);
            push_hex2(v, b);
        },
        AddressMode::ZeroPageXIndexed => {
            v.push(0x24);
            push_hex2(v, b);
            v.push(0x2c);
            v.push(0x58);
        },
        AddressMode::ZeroPageYIndexed => {
            v.push(0x24);
            push_hex2(v, b);
            v.push(0x2c);
            v.push(0x59);
        },
    }
    proof {
        assert(v@ =~= old(v)@ + operand_text_s(mode, w, b));
    }
}

/// One formatted line: four hex digits of program counter, a space,
/// the mnemonic, a space, and the operand text.
pub open spec fn line_s(pc: u16, m: Mnemonic, mode: AddressMode, w: u16, b: u8) -> Seq<u8> {
    hex4_s(pc) + seq![0x20u8] + mnemonic_text_s(m) + seq![0x20u8] + operand_text_s(mode, w, b)
}

/// The line the debugger shows for the instruction under the program
/// counter, or the error that stops it: a failed peek, or an opcode
/// byte outside the table.
pub open spec fn disasm_s(cpu: Cpu, ic: IcView) -> Result<Seq<u8>, Error> {
    let pc = cpu.reg.pc;
    match <Interconnect as Bus>::peek_s(ic, pc) {
        Ok(code) => match decode_s(code) {
            Some(i) => {
                if operand_len_s(i.address_mode) == 2 {
                    match <Interconnect as Bus>::peek_s(ic, pc.wrapping_add(1)) {
                        Ok(lo) => match <Interconnect as Bus>::peek_s(ic, pc.wrapping_add(2)) {
                            Ok(hi) => Ok(
                                line_s(pc, i.mnemonic, i.address_mode, word_s(lo, hi), lo),
                            ),
                            Err(e) => Err(e),
                        },
                        Err(e) => Err(e),
                    }
                } else if operand_len_s(i.address_mode) == 1 {
                    match <Interconnect as Bus>::peek_s(ic, pc.wrapping_add(1)) {
                        Ok(b) => Ok(line_s(pc, i.mnemonic, i.address_mode, 0, b)),
                        Err(e) => Err(e),
                    }
                } else {
                    Ok(line_s(pc, i.mnemonic, i.address_mode, 0, 0))
                }
            },
            None => Err(Error::Decode(pc, code)),
        },
        Err(e) => Err(e),
    }
}

/// Format the instruction under the console's program counter, reading
/// only through the side-effect-free peek path.
pub fn disassemble(nes: &Nes) -> (r: Result<Vec<u8>, Error>)
    requires
        nes.wf_s(),
    ensures
        match disasm_s(nes.cpu_s(), nes.bus_s()) {
            Ok(s) => r matches Ok(v) && v@ == s,
            Err(e) => r == Err::<Vec<u8>, Error>(e),
        },
{
    let i = nes.current_instruction()?;
    let pc = nes.cpu().reg.pc;
    let mut v: Vec<u8> = Vec::new();
    push_hex4(&mut v, pc);
    v.push(0x20);
    push_mnemonic(&mut v, i.mnemonic);
    v.push(0x20);
    let opl = crate::instruction::operand_len(i.address_mode);
    if opl == 2 {
        let w = nes.skip_peek_u16(1)?;
        push_operand(&mut v, i.address_mode, w, (w % 256) as u8);
    } else if opl == 1 {
        let b = nes.skip_peek(1)?;
        push_operand(&mut v, i.address_mode, 0, b);
    } else {
        push_operand(&mut v, i.address_mode, 0, 0);
    }
    proof {
        assert(v@ =~= disasm_s(nes.cpu_s(), nes.bus_s())->Ok_0);
    }
    Ok(v)
}

/// The interactive debugger's state: the console and the last command,
/// so an empty line can repeat it.
pub struct Debugger {
    pub nes: Nes,
    pub last_command: Option<Command>,
}

impl Debugger {
    /// The recorded last command.
    pub open spec fn last_s(self) -> Option<Command> {
        self.last_command
    }

    /// A debugger around a console, with no last command yet.
    pub fn new(nes: Nes) -> (r: Debugger)
        ensures
            r.nes == nes,
            r.last_s() is None,
    {
        Debugger { nes, last_command: None }
    }

    /// Substitute the recorded last command for `Repeat` and record
    /// what will run: a fresh command replaces the record, an
    /// unparsable line clears it.
    pub fn resolve_command(&mut self, parsed: Option<Command>) -> (r: Option<Command>)
        ensures
            final(self).nes == old(self).nes,
            r == (match parsed {
                Some(Command::Repeat) => old(self).last_s(),
                Some(c) => Some(c),
                None => None::<Command>,
            }),
            final(self).last_s() == r,
    {
        match parsed {
            Some(Command::Repeat) => {
                let r = self.last_command;
                self.last_command = r;
                r
            },
            Some(c) => {
                self.last_command = Some(c);
                Some(c)
            },
            None => {
                self.last_command = None;
                None
            },
        }
    }

    /// Advance the console one step and format the instruction now
    /// under the program counter.
    pub fn step(&mut self) -> (r: Result<Vec<u8>, Error>)
        requires
            old(self).nes.wf_s(),
        ensures
            final(self).nes.wf_s(),
            final(self).last_s() == old(self).last_s(),
            match Nes::step_nes_s(
                old(self).nes.cpu_s(),
                old(self).nes.bus_s(),
                old(self).nes.cycles_s(),
            ) {
                Ok((c, b, _cy)) => final(self).nes.cpu_s() == c && final(self).nes.bus_s() == b && (
                match disasm_s(c, b) {
                    Ok(s) => r matches Ok(v) && v@ == s,
                    Err(e) => r == Err::<Vec<u8>, Error>(e),
                }),
                Err(e) => r == Err::<Vec<u8>, Error>(e),
            },
    {
        self.nes.step()?;
        disassemble(&self.nes)
    }

    /// Step the console `count` times, stopping at the first error.
    pub fn step_by(&mut self, count: usize) -> (r: Result<(), Error>)
        requires
            old(self).nes.wf_s(),
        ensures
            final(self).nes.wf_s(),
            match Nes::run_s(
                old(self).nes.cpu_s(),
                old(self).nes.bus_s(),
                old(self).nes.cycles_s(),
                count as int,
            ) {
                Ok((c, b, _cy)) => r == Ok::<(), Error>(()) && final(self).nes.cpu_s() == c
                    && final(self).nes.bus_s() == b,
                Err(e) => r == Err::<(), Error>(e),
            },
    {
        match self.nes.run(count as u64) {
            None => Ok(()),
            Some(e) => Err(e),
        }
    }
}

} // verus!
