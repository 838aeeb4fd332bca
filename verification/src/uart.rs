//! The line-buffered console transmitter.
//!
//! Each write to the data register carries one 32-bit word; the driver
//! converts a newline to carriage-return plus newline on the way out.  The
//! words handed to the register are held in transmission order, so what the
//! wire would carry is exactly the view.

use vstd::prelude::*;
use vstd::string::StrSliceExecFns;

verus! {

/// The words one character puts on the wire: a newline is preceded by a
/// carriage return.
pub open spec fn spec_char_encoding(c: char) -> Seq<u32> {
    if c == '\n' {
        seq!['\r' as u32, c as u32]
    } else {
        seq![c as u32]
    }
}

/// The words a string puts on the wire, character by character.
pub open spec fn spec_str_encoding(cs: Seq<char>) -> Seq<u32>
    decreases cs.len(),
{
    if cs.len() == 0 {
        Seq::empty()
    } else {
        spec_char_encoding(cs[0]) + spec_str_encoding(cs.subrange(1, cs.len() as int))
    }
}

/// The hexadecimal digit of a value below 16.
pub open spec fn spec_hex_digit(nibble: u32) -> char {
    if nibble == 0 {
        '0'
    } else if nibble == 1 {
        '1'
    } else if nibble == 2 {
        '2'
    } else if nibble == 3 {
        '3'
    } else if nibble == 4 {
        '4'
    } else if nibble == 5 {
        '5'
    } else if nibble == 6 {
        '6'
    } else if nibble == 7 {
        '7'
    } else if nibble == 8 {
        '8'
    } else if nibble == 9 {
        '9'
    } else if nibble == 10 {
        'A'
    } else if nibble == 11 {
        'B'
    } else if nibble == 12 {
        'C'
    } else if nibble == 13 {
        'D'
    } else if nibble == 14 {
        'E'
    } else {
        'F'
    }
}

/// The words `put_hex` puts on the wire: a 0x prefix and eight digits,
/// highest nibble first.
pub open spec fn spec_hex_encoding(num: u32) -> Seq<u32> {
    seq!['0' as u32, 'x' as u32] + Seq::new(8, |i: int| spec_hex_digit((num >> ((7 - i) * 4) as u32) & 0xF) as u32)
}

pub struct Uart {
    tx: Vec<u32>,
}

impl View for Uart {
    type V = Seq<u32>;

    closed spec fn view(&self) -> Seq<u32> {
        self.tx@
    }
}

proof fn lemma_str_encoding_push(cs: Seq<char>, c: char)
    ensures
        spec_str_encoding(cs.push(c)) == spec_str_encoding(cs) + spec_char_encoding(c),
    decreases cs.len(),
{
    let t = cs.push(c);
    let tt = t.subrange(1, t.len() as int);
    if cs.len() == 0 {
        assert(tt =~= Seq::<char>::empty());
        assert(spec_str_encoding(tt) == Seq::<u32>::empty());
        assert(spec_str_encoding(cs) == Seq::<u32>::empty());
        assert(spec_str_encoding(t) =~= spec_str_encoding(cs) + spec_char_encoding(c));
    } else {
        assert(tt =~= cs.subrange(1, cs.len() as int).push(c));
        lemma_str_encoding_push(cs.subrange(1, cs.len() as int), c);
        assert(t[0] == cs[0]);
        assert(spec_str_encoding(t) =~= spec_str_encoding(cs) + spec_char_encoding(c));
    }
}

impl Uart {
    /// The transmitter as the bootloader configured it, nothing sent yet.
    pub fn new() -> (r: Uart)
        ensures
            r@ == Seq::<u32>::empty(),
    {
        Uart { tx: Vec::new() }
    }

    /// Sends one character, converting a newline to carriage return plus
    /// newline.
    pub fn write_char(&mut self, c: char)
        ensures
            final(self)@ == old(self)@ + spec_char_encoding(c),
    {
        if c == '\n' {
            self.tx.push('\r' as u32);
        }
        self.tx.push(c as u32);
        proof {
            assert(final(self)@ =~= old(self)@ + spec_char_encoding(c));
        }
    }

    /// Sends a string character by character.
    pub fn write_str(&mut self, s: &str)
        ensures
            final(self)@ == old(self)@ + spec_str_encoding(s@),
    {
        let n = s.unicode_len();
        let mut i: usize = 0;
        proof {
            assert(s@.subrange(0, 0) =~= Seq::<char>::empty());
        }
        while i < n
            invariant
                n == s@.len(),
                i <= n,
                self@ == old(self)@ + spec_str_encoding(s@.subrange(0, i as int)),
            decreases n - i,
        {
            let c = s.get_char(i);
            self.write_char(c);
            proof {
                assert(s@.subrange(0, i + 1) =~= s@.subrange(0, i as int).push(s@[i as int]));
                lemma_str_encoding_push(s@.subrange(0, i as int), s@[i as int]);
            }
            i = i + 1;
        }
        proof {
            assert(s@.subrange(0, n as int) =~= s@);
        }
    }

    /// Sends a 32-bit value as 0x and eight hexadecimal digits, highest
    /// nibble first.
    pub fn put_hex(&mut self, num: u32)
        ensures
            final(self)@ == old(self)@ + spec_hex_encoding(num),
    {
        proof {
            reveal_strlit("0x");
        }
        self.write_str("0x");
        let ghost digits = Seq::new(
            8,
            |i: int| spec_hex_digit((num >> ((7 - i) * 4) as u32) & 0xF) as u32,
        );
        proof {
            assert(spec_str_encoding("0x"@) =~= seq!['0' as u32, 'x' as u32]) by {
                reveal_strlit("0x");
                assert("0x"@.len() == 2);
                assert("0x"@[0] == '0' && "0x"@[1] == 'x');
                let one = "0x"@.subrange(1, 2);
                assert(one.len() == 1 && one[0] == 'x');
                let zero = one.subrange(1, 1);
                assert(zero =~= Seq::<char>::empty());
                assert(spec_str_encoding(zero) == Seq::<u32>::empty());
                assert(spec_str_encoding(one) =~= seq!['x' as u32]);
            }
        }
        let mut i: usize = 0;
        while i < 8
            invariant
                i <= 8,
                digits == Seq::new(
                    8,
                    |k: int| spec_hex_digit((num >> ((7 - k) * 4) as u32) & 0xF) as u32,
                ),
                self@ == old(self)@ + seq!['0' as u32, 'x' as u32] + digits.subrange(0, i as int),
            decreases 8 - i,
        {
            let shift: u32 = (7 - (i as u32)) * 4;
            let nibble: u32 = (num >> shift) & 0xF;
            proof {
                assert((num >> shift) & 0xFu32 < 16) by (bit_vector);
            }
            let c = hex_digit(nibble);
            assert(c != '\n');
            self.write_char(c);
            proof {
                assert(digits.subrange(0, i + 1) =~= digits.subrange(0, i as int).push(
                    digits[i as int],
                ));
                assert(spec_char_encoding(c) =~= seq![digits[i as int]]);
            }
            i = i + 1;
        }
        proof {
            assert(digits.subrange(0, 8) =~= digits);
            assert(final(self)@ =~= old(self)@ + spec_hex_encoding(num));
        }
    }

    /// The words handed to the data register so far, oldest first.
    pub fn transmitted(&self) -> (r: &[u32])
        ensures
            r@ == self@,
    {
        self.tx.as_slice()
    }
}

/// One hexadecimal digit character.
fn hex_digit(nibble: u32) -> (r: char)
    requires
        nibble < 16,
    ensures
        r == spec_hex_digit(nibble),
        r != '\n',
{
    match nibble {
        0 => '0',
        1 => '1',
        2 => '2',
        3 => '3',
        4 => '4',
        5 => '5',
        6 => '6',
        7 => '7',
        8 => '8',
        9 => '9',
        10 => 'A',
        11 => 'B',
        12 => 'C',
        13 => 'D',
        14 => 'E',
        _ => 'F',
    }
}

} // verus!
