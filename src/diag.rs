//! Diagnostic output helpers: decimal rendering of a word and a fixed-size
//! byte buffer that receives text.

use vstd::prelude::*;
use vstd::string::StringSliceAdditionalSpecFns;

verus! {

/// Capacity in bytes of a [`MyBuf`].
pub const BUF_LEN: usize = 40;

/// The ASCII decimal digits of `n`, most significant first, with no leading
/// zero (zero itself is one digit).
pub open spec fn decimal(n: nat) -> Seq<u8>
    decreases n,
{
    if n < 10 {
        seq![(48 + n) as u8]
    } else {
        decimal(n / 10).push((48 + n % 10) as u8)
    }
}

/// The ASCII decimal digits of `n`.
pub fn decimal_digits(n: u32) -> (r: Vec<u8>)
    ensures
        r@ == decimal(n as nat),
    decreases n,
{
    if n < 10 {
        let mut v: Vec<u8> = Vec::new();
        v.push(48 + n as u8);
        v
    } else {
        let mut v = decimal_digits(n / 10);
        v.push(48 + (n % 10) as u8);
        v
    }
}

/// A fixed buffer of text; `len` bytes of it are in use.
pub struct MyBuf {
    pub buf: [u8; 40],
    pub len: usize,
}

impl MyBuf {
    /// Bytes in use never exceed the capacity.
    pub open spec fn wf(&self) -> bool {
        self.len <= BUF_LEN
    }

    /// The text held.
    pub open spec fn text(&self) -> Seq<u8> {
        self.buf@.subrange(0, self.len as int)
    }

    /// An empty buffer, all bytes zero.
    pub fn new() -> (r: MyBuf)
        ensures
            r.wf(),
            r.len == 0,
            forall|i: int| 0 <= i < BUF_LEN ==> r.buf@[i] == 0,
    {
        MyBuf { buf: [0u8; 40], len: 0 }
    }

    /// Replaces the text with `s`, cut to the capacity. Bytes past the new
    /// text keep their values.
    pub fn write_str(&mut self, s: &str)
        ensures
            final(self).wf(),
            final(self).len == (if s.spec_bytes().len() >= BUF_LEN {
                BUF_LEN as int
            } else {
                s.spec_bytes().len() as int
            }),
            final(self).text() == s.spec_bytes().subrange(0, final(self).len as int),
            forall|i: int|
                final(self).len <= i < BUF_LEN ==> #[trigger] final(self).buf@[i] == old(
                    self,
                ).buf@[i],
    {
        let bytes = s.as_bytes();
        let n: usize = if bytes.len() >= BUF_LEN {
            BUF_LEN
        } else {
            bytes.len()
        };
        let mut i: usize = 0;
        while i < n
            invariant
                i <= n <= BUF_LEN,
                n <= bytes@.len(),
                bytes@ == s.spec_bytes(),
                self.buf@.len() == BUF_LEN,
                forall|k: int| 0 <= k < i ==> #[trigger] self.buf@[k] == bytes@[k],
                forall|k: int| i <= k < BUF_LEN ==> #[trigger] self.buf@[k] == old(self).buf@[k],
            decreases n - i,
        {
            self.buf[i] = bytes[i];
            i = i + 1;
        }
        self.len = n;
        proof {
            assert(self.text() =~= s.spec_bytes().subrange(0, n as int));
        }
    }
}

} // verus!
