//! What the library hands to Csound: the NUL-terminated names of the control
//! channels, the engine options for a sample rate, and the flags of a CSD
//! compilation.
use vstd::prelude::*;
use vstd::string::*;

verus! {

/// The name of a Csound control channel, stored with a terminating NUL so
/// that it can be handed to the C API without another allocation.
pub struct ChannelName {
    bytes: Vec<u8>,
}

impl View for ChannelName {
    type V = Seq<u8>;

    /// The stored bytes: the UTF-8 bytes of the name, then a NUL.
    closed spec fn view(&self) -> Seq<u8> {
        self.bytes@
    }
}

impl ChannelName {
    /// Copies `name` and appends the terminating NUL.
    pub fn new(name: &str) -> (res: Self)
        ensures
            res@ == name.spec_bytes().push(0u8),
    {
        let src = name.as_bytes();
        let mut bytes: Vec<u8> = Vec::new();
        let mut i: usize = 0;
        while i < src.len()
            invariant
                i <= src@.len(),
                src@ == name.spec_bytes(),
                bytes@ == src@.subrange(0, i as int),
            decreases src@.len() - i,
        {
            bytes.push(src[i]);
            i = i + 1;
            assert(bytes@ == src@.subrange(0, i as int));
        }
        assert(src@.subrange(0, src@.len() as int) == src@);
        bytes.push(0u8);
        ChannelName { bytes }
    }

    /// The name's bytes followed by the terminating NUL.
    pub fn as_bytes_with_nul(&self) -> (res: &[u8])
        ensures
            res@ == self@,
    {
        self.bytes.as_slice()
    }
}

/// The character of a decimal digit.
pub open spec fn digit_char(d: nat) -> char {
    if d == 0 {
        '0'
    } else if d == 1 {
        '1'
    } else if d == 2 {
        '2'
    } else if d == 3 {
        '3'
    } else if d == 4 {
        '4'
    } else if d == 5 {
        '5'
    } else if d == 6 {
        '6'
    } else if d == 7 {
        '7'
    } else if d == 8 {
        '8'
    } else {
        '9'
    }
}

/// The decimal representation of `n`, without leading zeros.
pub open spec fn decimal(n: nat) -> Seq<char>
    decreases n,
{
    if n < 10 {
        seq![digit_char(n)]
    } else {
        decimal(n / 10).push(digit_char(n % 10))
    }
}

/// The number a digit character stands for.
pub open spec fn digit_value(c: char) -> nat {
    if c == '1' {
        1
    } else if c == '2' {
        2
    } else if c == '3' {
        3
    } else if c == '4' {
        4
    } else if c == '5' {
        5
    } else if c == '6' {
        6
    } else if c == '7' {
        7
    } else if c == '8' {
        8
    } else if c == '9' {
        9
    } else {
        0
    }
}

/// The number a string of decimal digits stands for.
pub open spec fn digits_value(s: Seq<char>) -> nat
    decreases s.len(),
{
    if s.len() == 0 {
        0
    } else {
        digits_value(s.drop_last()) * 10 + digit_value(s.last())
    }
}

proof fn lemma_digit_roundtrip(d: nat)
    requires
        d < 10,
    ensures
        digit_value(digit_char(d)) == d,
        d != 0 ==> digit_char(d) != '0',
{
}

/// Reading the decimal representation of a number gives the number back,
/// and the representation starts with a zero only for zero itself.
pub proof fn lemma_decimal_reads_back(n: nat)
    ensures
        digits_value(decimal(n)) == n,
        decimal(n).len() >= 1,
        n != 0 ==> decimal(n)[0] != '0',
    decreases n,
{
    if n < 10 {
        lemma_digit_roundtrip(n);
        assert(decimal(n).drop_last() =~= Seq::<char>::empty());
        assert(digits_value(Seq::<char>::empty()) == 0);
    } else {
        lemma_decimal_reads_back(n / 10);
        lemma_digit_roundtrip(n % 10);
        let prefix = decimal(n / 10);
        assert(decimal(n).drop_last() =~= prefix);
        assert(decimal(n)[0] == prefix[0]);
        assert(digits_value(decimal(n)) == digits_value(prefix) * 10 + digit_value(
            digit_char(n % 10),
        ));
        assert((n / 10) * 10 + n % 10 == n) by (nonlinear_arith);
    }
}

/// The options the engine is started with for a given sample rate: no sound
/// output file, no displays, no real-time MIDI, no MIDI input device, and the
/// sample rate.
pub open spec fn init_options_text(sample_rate: nat) -> Seq<char> {
    "-n -d -+rtmidi=NULL -M0 -sr "@ + decimal(sample_rate)
}

fn digit_str(d: usize) -> (res: &'static str)
    requires
        d < 10,
    ensures
        res@ == seq![digit_char(d as nat)],
{
    if d == 0 {
        proof { reveal_strlit("0"); }
        "0"
    } else if d == 1 {
        proof { reveal_strlit("1"); }
        "1"
    } else if d == 2 {
        proof { reveal_strlit("2"); }
        "2"
    } else if d == 3 {
        proof { reveal_strlit("3"); }
        "3"
    } else if d == 4 {
        proof { reveal_strlit("4"); }
        "4"
    } else if d == 5 {
        proof { reveal_strlit("5"); }
        "5"
    } else if d == 6 {
        proof { reveal_strlit("6"); }
        "6"
    } else if d == 7 {
        proof { reveal_strlit("7"); }
        "7"
    } else if d == 8 {
        proof { reveal_strlit("8"); }
        "8"
    } else {
        proof { reveal_strlit("9"); }
        "9"
    }
}

fn push_decimal(out: &mut String, n: usize)
    ensures
        final(out)@ == old(out)@ + decimal(n as nat),
    decreases n,
{
    if n >= 10 {
        push_decimal(out, n / 10);
    }
    let d = digit_str(n % 10);
    out.append(d);
    assert(final(out)@ == old(out)@ + decimal(n as nat)) by {
        if n >= 10 {
            assert(decimal(n as nat) == decimal((n / 10) as nat).push(digit_char((n % 10) as nat)));
        }
    }
}

/// The option string of the engine for the given sample rate
/// (`-n -d -+rtmidi=NULL -M0 -sr <rate>`).
pub fn init_options(sample_rate: usize) -> (res: String)
    ensures
        res@ == init_options_text(sample_rate as nat),
{
    let mut res = String::from_str("-n -d -+rtmidi=NULL -M0 -sr ");
    push_decimal(&mut res, sample_rate);
    res
}

/// The `mode` and `async` arguments of a CSD compilation: `mode` is 1 when
/// the CSD is given as text and 0 when it is given as a file name; `async`
/// is 1 for an asynchronous compilation and 0 otherwise.
pub fn compile_csd_args(from_text: bool, is_async: bool) -> (res: (i32, i32))
    ensures
        res.0 == (if from_text { 1i32 } else { 0i32 }),
        res.1 == (if is_async { 1i32 } else { 0i32 }),
{
    let mode: i32 = if from_text { 1 } else { 0 };
    let asynchronous: i32 = if is_async { 1 } else { 0 };
    (mode, asynchronous)
}

} // verus!
