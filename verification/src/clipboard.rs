//! Copying the command to the clipboard.
//!
//! Two independent mechanisms, because neither covers every case:
//!
//! * the system clipboard — works well on macOS and Windows, where the OS owns
//!   the contents;
//! * **OSC 52** — an escape sequence asking the terminal itself to put the text
//!   on the clipboard; works where no system clipboard is visible: over SSH,
//!   in a container, in a headless environment.
//!
//! On Linux the order is reversed: under X11/Wayland the owning process holds
//! the contents, so the clipboard would empty when `plz` exits unless a
//! clipboard manager picked it up. There OSC 52 comes first, since it outlives
//! the process.

use vstd::prelude::*;
use crate::text::push_char;

verus! {

/// How the text reached the clipboard. Shown to the user, because it decides
/// where the command will actually be available.
#[derive(Debug, Clone, Copy, PartialEq, Eq, Structural)]
pub enum Method {
    System,
    Osc52,
}

impl Method {
    /// The catalogue message that tells the user where the text went.
    pub fn describe(&self) -> (r: &'static str)
        ensures
            r == (match self {
                Method::System => "ui.copied_to_clipboard",
                Method::Osc52 => "ui.copied_via_terminal",
            }),
    {
        match self {
            Method::System => "ui.copied_to_clipboard",
            Method::Osc52 => "ui.copied_via_terminal",
        }
    }

    /// The name of the mechanism in a failure report. It stays English: it
    /// names a system clipboard API and an escape sequence, not prose.
    pub fn label(&self) -> (r: &'static str)
        ensures
            r == (match self {
                Method::System => "system clipboard",
                Method::Osc52 => "OSC 52",
            }),
    {
        match self {
            Method::System => "system clipboard",
            Method::Osc52 => "OSC 52",
        }
    }
}

/// The order to try the mechanisms in: OSC 52 first on Linux, where the
/// system clipboard dies with the process, the system clipboard first
/// elsewhere.
pub fn attempt_order(linux: bool) -> (r: [Method; 2])
    ensures
        linux ==> r@ == seq![Method::Osc52, Method::System],
        !linux ==> r@ == seq![Method::System, Method::Osc52],
{
    let r = if linux {
        [Method::Osc52, Method::System]
    } else {
        [Method::System, Method::Osc52]
    };
    assert(linux ==> r@ =~= seq![Method::Osc52, Method::System]);
    assert(!linux ==> r@ =~= seq![Method::System, Method::Osc52]);
    r
}

/// The base64 alphabet (RFC 4648): a sextet's character.
pub open spec fn b64_char(v: nat) -> char {
    if v < 26 {
        (65 + v) as char
    } else if v < 52 {
        (97 + v - 26) as char
    } else if v < 62 {
        (48 + v - 52) as char
    } else if v == 62 {
        '+'
    } else {
        '/'
    }
}

/// The four characters of a group of one to three bytes: the bytes read as
/// sextets, with `=` for each sextet that no byte reaches.
pub open spec fn b64_group(b0: u8, b1: u8, b2: u8, n: nat) -> Seq<char> {
    seq![
        b64_char((b0 / 4) as nat),
        b64_char(((b0 % 4) * 16 + b1 / 16) as nat),
        if n > 1 {
            b64_char(((b1 % 16) * 4 + b2 / 64) as nat)
        } else {
            '='
        },
        if n > 2 {
            b64_char((b2 % 64) as nat)
        } else {
            '='
        },
    ]
}

/// Base64 of a byte sequence, padded.
pub open spec fn b64(data: Seq<u8>) -> Seq<char>
    decreases data.len(),
{
    if data.len() == 0 {
        Seq::empty()
    } else {
        let n = if data.len() >= 3 {
            3nat
        } else {
            data.len()
        };
        b64_group(
            data[0],
            if n > 1 {
                data[1]
            } else {
                0
            },
            if n > 2 {
                data[2]
            } else {
                0
            },
            n,
        ) + b64(data.skip(n as int))
    }
}

/// The character of a sextet.
fn alphabet(v: u32) -> (c: char)
    requires
        v < 64,
    ensures
        c == b64_char(v as nat),
{
    if v < 26 {
        char_of(65 + v)
    } else if v < 52 {
        char_of(97 + v - 26)
    } else if v < 62 {
        char_of(48 + v - 52)
    } else if v == 62 {
        '+'
    } else {
        '/'
    }
}

fn char_of(u: u32) -> (c: char)
    requires
        u < 128,
    ensures
        c == u as char,
{
    (u as u8) as char
}

/// Base64 without a dependency: needed exactly once, and only for encoding.
pub fn base64(data: &[u8]) -> (r: String)
    ensures
        r@ == b64(data@),
{
    let mut encoded = String::new();
    let mut i: usize = 0;
    assert(data@.skip(0) =~= data@);
    while i < data.len()
        invariant
            i <= data.len(),
            encoded@ + b64(data@.skip(i as int)) == b64(data@),
        decreases data.len() - i,
    {
        let rest = data.len() - i;
        let n: usize = if rest >= 3 { 3 } else { rest };
        let b0 = data[i] as u32;
        let b1 = if n > 1 { data[i + 1] as u32 } else { 0 };
        let b2 = if n > 2 { data[i + 2] as u32 } else { 0 };
        let triple = (b0 << 16u32) | (b1 << 8u32) | b2;
        assert(((triple >> 18u32) & 0x3f) == b0 / 4) by (bit_vector)
            requires
                b0 < 256,
                b1 < 256,
                b2 < 256,
                triple == (b0 << 16u32) | (b1 << 8u32) | b2,
        ;
        assert(((triple >> 12u32) & 0x3f) == (b0 % 4) * 16 + b1 / 16) by (bit_vector)
            requires
                b0 < 256,
                b1 < 256,
                b2 < 256,
                triple == (b0 << 16u32) | (b1 << 8u32) | b2,
        ;
        assert(((triple >> 6u32) & 0x3f) == (b1 % 16) * 4 + b2 / 64) by (bit_vector)
            requires
                b0 < 256,
                b1 < 256,
                b2 < 256,
                triple == (b0 << 16u32) | (b1 << 8u32) | b2,
        ;
        assert((triple & 0x3f) == b2 % 64) by (bit_vector)
            requires
                b0 < 256,
                b1 < 256,
                b2 < 256,
                triple == (b0 << 16u32) | (b1 << 8u32) | b2,
        ;
        let ghost before = encoded@;
        push_char(&mut encoded, alphabet((triple >> 18u32) & 0x3f));
        push_char(&mut encoded, alphabet((triple >> 12u32) & 0x3f));
        push_char(&mut encoded, if n > 1 { alphabet((triple >> 6u32) & 0x3f) } else { '=' });
        push_char(&mut encoded, if n > 2 { alphabet(triple & 0x3f) } else { '=' });
        proof {
            let s = data@.skip(i as int);
            let g = b64_group(
                s[0],
                if n > 1 { s[1] } else { 0 },
                if n > 2 { s[2] } else { 0 },
                n as nat,
            );
            assert(s.skip(n as int) =~= data@.skip(i + n));
            assert(encoded@ =~= before + g);
            assert(b64(s) == g + b64(s.skip(n as int)));
            assert(encoded@ + b64(data@.skip(i + n)) =~= before + b64(s));
        }
        i = i + n;
    }
    assert(data@.skip(data.len() as int) =~= Seq::<u8>::empty());
    assert(encoded@ + Seq::<char>::empty() =~= encoded@);
    encoded
}

/// The OSC 52 sequence that asks the terminal to put the text on its
/// clipboard. `c` is the main system clipboard (CLIPBOARD), not the selection.
pub open spec fn osc52_text(bytes: Seq<u8>) -> Seq<char> {
    seq!['\x1b', ']', '5', '2', ';', 'c', ';'] + b64(bytes) + seq!['\x07']
}

/// The escape sequence that copies text through the terminal, given its UTF-8
/// bytes: base64-encoded, inside an OSC 52 request.
pub fn osc52_sequence(bytes: &[u8]) -> (r: String)
    ensures
        r@ == osc52_text(bytes@),
{
    let mut out = String::new();
    push_char(&mut out, '\x1b');
    push_char(&mut out, ']');
    push_char(&mut out, '5');
    push_char(&mut out, '2');
    push_char(&mut out, ';');
    push_char(&mut out, 'c');
    push_char(&mut out, ';');
    let ghost head = out@;
    let encoded = base64(bytes);
    out.append(encoded.as_str());
    push_char(&mut out, '\x07');
    assert(out@ =~= osc52_text(bytes@));
    out
}

/// Base64 takes four characters for every started group of three bytes.
pub proof fn lemma_base64_length(data: Seq<u8>)
    ensures
        b64(data).len() == 4 * ((data.len() + 2) / 3),
    decreases data.len(),
{
    if data.len() > 0 {
        let n: int = if data.len() >= 3 { 3 } else { data.len() as int };
        lemma_base64_length(data.skip(n));
        assert(data.skip(n).len() == data.len() - n);
    }
}

} // verus!
