//! SHA-256 digests, computed by the `sha2` crate and modelled as a function
//! from the bytes absorbed to the bytes of the digest.

use vstd::prelude::*;
use vstd::string::*;

verus! {

/// A running SHA-256 computation of the `sha2` crate. Its type is an alias
/// into several generic layers, so the state is kept whole behind this struct
/// and spoken of only through [`absorbed`].
#[verifier::external_body]
pub struct Sha256State {
    inner: sha2::Sha256,
}

/// The SHA-256 digest of `data`: 32 bytes.
pub uninterp spec fn sha256(data: Seq<u8>) -> Seq<u8>;

/// The bytes that a running digest has absorbed so far, in order.
pub uninterp spec fn absorbed(state: Sha256State) -> Seq<u8>;

/// `Sha256::new` of `sha2`: a running digest that has absorbed nothing.
#[verifier::external_body]
pub(crate) fn sha256_start() -> (state: Sha256State)
    ensures
        absorbed(state) == Seq::<u8>::empty(),
{
    Sha256State { inner: <sha2::Sha256 as sha2::Digest>::new() }
}

/// `Digest::update` of `sha2`, on a slice: the running digest absorbs `data`
/// after what it had absorbed before.
#[verifier::external_body]
pub(crate) fn sha256_absorb(state: &mut Sha256State, data: &[u8])
    ensures
        absorbed(*final(state)) == absorbed(*old(state)) + data@,
{
    sha2::Digest::update(&mut state.inner, data)
}

/// `Digest::finalize` of `sha2`: the digest of everything absorbed, copied
/// out of the fixed-size array into a vector of 32 bytes.
#[verifier::external_body]
pub(crate) fn sha256_finish(state: Sha256State) -> (out: Vec<u8>)
    ensures
        out@ == sha256(absorbed(state)),
        out@.len() == 32,
{
    sha2::Digest::finalize(state.inner).to_vec()
}

/// The lower-case hexadecimal digit for `n`, for `n` from 0 to 15.
pub open spec fn hex_digit(n: int) -> char {
    if n == 0 {
        '0'
    } else if n == 1 {
        '1'
    } else if n == 2 {
        '2'
    } else if n == 3 {
        '3'
    } else if n == 4 {
        '4'
    } else if n == 5 {
        '5'
    } else if n == 6 {
        '6'
    } else if n == 7 {
        '7'
    } else if n == 8 {
        '8'
    } else if n == 9 {
        '9'
    } else if n == 10 {
        'a'
    } else if n == 11 {
        'b'
    } else if n == 12 {
        'c'
    } else if n == 13 {
        'd'
    } else if n == 14 {
        'e'
    } else {
        'f'
    }
}

/// The lower-case hexadecimal text of `bytes`: two digits for each byte, the
/// high half first.
pub open spec fn hex_chars(bytes: Seq<u8>) -> Seq<char> {
    Seq::new(
        2 * bytes.len(),
        |i: int|
            if i % 2 == 0 {
                hex_digit(bytes[i / 2] as int / 16)
            } else {
                hex_digit(bytes[i / 2] as int % 16)
            },
    )
}

/// The first `n` bytes of `bytes`, or all of them where there are fewer.
pub open spec fn leading_bytes(bytes: Seq<u8>, n: int) -> Seq<u8> {
    if 0 <= n < bytes.len() {
        bytes.take(n)
    } else {
        bytes
    }
}

/// The fingerprint that stands for a digest: its leading 64 bits as 16
/// hexadecimal digits.
pub open spec fn short_hex(digest: Seq<u8>) -> Seq<char> {
    hex_chars(leading_bytes(digest, 8))
}

/// The fingerprint of `data`: the leading 16 hexadecimal digits of its
/// SHA-256 digest.
pub open spec fn fingerprint_of(data: Seq<u8>) -> Seq<char> {
    short_hex(sha256(data))
}

/// The full SHA-256 digest of `data` as 64 hexadecimal digits.
pub open spec fn digest_hex_of(data: Seq<u8>) -> Seq<char> {
    hex_chars(sha256(data))
}

fn hex_digit_text(n: u8) -> (d: &'static str)
    requires
        n < 16,
    ensures
        d@ == seq![hex_digit(n as int)],
{
    let d = match n {
        0 => {
            proof {
                reveal_strlit("0");
            }
            "0"
        },
        1 => {
            proof {
                reveal_strlit("1");
            }
            "1"
        },
        2 => {
            proof {
                reveal_strlit("2");
            }
            "2"
        },
        3 => {
            proof {
                reveal_strlit("3");
            }
            "3"
        },
        4 => {
            proof {
                reveal_strlit("4");
            }
            "4"
        },
        5 => {
            proof {
                reveal_strlit("5");
            }
            "5"
        },
        6 => {
            proof {
                reveal_strlit("6");
            }
            "6"
        },
        7 => {
            proof {
                reveal_strlit("7");
            }
            "7"
        },
        8 => {
            proof {
                reveal_strlit("8");
            }
            "8"
        },
        9 => {
            proof {
                reveal_strlit("9");
            }
            "9"
        },
        10 => {
            proof {
                reveal_strlit("a");
            }
            "a"
        },
        11 => {
            proof {
                reveal_strlit("b");
            }
            "b"
        },
        12 => {
            proof {
                reveal_strlit("c");
            }
            "c"
        },
        13 => {
            proof {
                reveal_strlit("d");
            }
            "d"
        },
        14 => {
            proof {
                reveal_strlit("e");
            }
            "e"
        },
        _ => {
            proof {
                reveal_strlit("f");
            }
            "f"
        },
    };
    assert(d@ =~= seq![hex_digit(n as int)]);
    d
}

/// Writes `bytes` as lower-case hexadecimal text.
pub fn hex_encode(bytes: &[u8]) -> (out: String)
    ensures
        out@ == hex_chars(bytes@),
{
    let mut out = String::new();
    let mut i: usize = 0;
    assert(out@ =~= hex_chars(bytes@.take(0)));
    while i < bytes.len()
        invariant
            i <= bytes.len(),
            out@ == hex_chars(bytes@.take(i as int)),
        decreases bytes.len() - i,
    {
        let b: u8 = bytes[i];
        out.append(hex_digit_text(b / 16));
        out.append(hex_digit_text(b % 16));
        assert(out@ =~= hex_chars(bytes@.take(i as int + 1)));
        i = i + 1;
    }
    assert(bytes@.take(i as int) =~= bytes@);
    out
}

/// The fingerprint that stands for `digest`: the hexadecimal text of its
/// first eight bytes.
pub fn fingerprint_from_digest(digest: &[u8]) -> (out: String)
    ensures
        out@ == short_hex(digest@),
{
    let mut head: Vec<u8> = Vec::new();
    let mut i: usize = 0;
    while i < digest.len() && i < 8
        invariant
            i <= digest.len(),
            i <= 8,
            head@ == digest@.take(i as int),
        decreases digest.len() - i,
    {
        head.push(digest[i]);
        assert(head@ =~= digest@.take(i as int + 1));
        i = i + 1;
    }
    assert(digest@.take(i as int) =~= leading_bytes(digest@, 8));
    hex_encode(head.as_slice())
}

/// A digest in progress: bytes are absorbed piece by piece, and the result
/// depends only on their concatenation.
pub struct RunningDigest {
    state: Sha256State,
}

impl View for RunningDigest {
    type V = Seq<u8>;

    closed spec fn view(&self) -> Seq<u8> {
        absorbed(self.state)
    }
}

impl RunningDigest {
    /// A digest that has absorbed nothing yet.
    pub fn new() -> (d: Self)
        ensures
            d@ == Seq::<u8>::empty(),
    {
        RunningDigest { state: sha256_start() }
    }

    /// Absorbs `data` after everything absorbed so far.
    pub fn update(&mut self, data: &[u8])
        ensures
            final(self)@ == old(self)@ + data@,
    {
        sha256_absorb(&mut self.state, data);
    }

    /// Ends the digest and gives all of it as 64 hexadecimal digits.
    pub fn finish_hex(self) -> (out: String)
        ensures
            out@ == digest_hex_of(self@),
            out@.len() == 64,
    {
        let bytes = sha256_finish(self.state);
        hex_encode(bytes.as_slice())
    }

    /// Ends the digest and gives its fingerprint of 16 hexadecimal digits.
    pub fn finish_fingerprint(self) -> (out: String)
        ensures
            out@ == fingerprint_of(self@),
            out@.len() == 16,
    {
        let bytes = sha256_finish(self.state);
        fingerprint_from_digest(bytes.as_slice())
    }
}

/// The full SHA-256 digest of `data` as 64 hexadecimal digits.
pub fn sha256_hex(data: &[u8]) -> (out: String)
    ensures
        out@ == digest_hex_of(data@),
        out@.len() == 64,
{
    let mut d = RunningDigest::new();
    d.update(data);
    assert(Seq::<u8>::empty() + data@ =~= data@);
    d.finish_hex()
}

/// The fingerprint of `data`.
pub fn fingerprint(data: &[u8]) -> (out: String)
    ensures
        out@ == fingerprint_of(data@),
        out@.len() == 16,
{
    let mut d = RunningDigest::new();
    d.update(data);
    assert(Seq::<u8>::empty() + data@ =~= data@);
    d.finish_fingerprint()
}

} // verus!
