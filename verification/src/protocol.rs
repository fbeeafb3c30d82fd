//! The protocol variant of a device, made from its interface string and DFU version.

use vstd::prelude::*;
use vstd::string::*;

verus! {

/// The DFU sub-protocol that a device speaks.
#[derive(Clone, Debug, PartialEq, Eq)]
pub enum ProtocolVariant {
    /// Plain DFU 1.1.
    Dfu,
    /// DfuSe, the ST extensions: firmware goes to an address in a paged memory.
    Dfuse {
        /// Where the memory starts.
        address: u32,
        /// The size of each page, in bytes, in the order of the pages.
        memory_layout: Vec<u32>,
    },
}

/// A protocol variant as a mathematical value.
pub enum ProtocolModel {
    Dfu,
    Dfuse { address: u32, memory_layout: Seq<u32> },
}

impl View for ProtocolVariant {
    type V = ProtocolModel;

    open spec fn view(&self) -> ProtocolModel {
        match self {
            ProtocolVariant::Dfu => ProtocolModel::Dfu,
            ProtocolVariant::Dfuse { address, memory_layout } => ProtocolModel::Dfuse {
                address: *address,
                memory_layout: memory_layout@,
            },
        }
    }
}

/// The version of plain DFU: 1.1 in binary-coded decimal.
pub open spec fn is_dfu_version(major: u8, minor: u8) -> bool {
    major == 0x01 && minor == 0x10
}

/// The version by which a DfuSe device is known: 1.1a.
pub open spec fn is_dfuse_version(major: u8, minor: u8) -> bool {
    major == 0x01 && minor == 0x1a
}

/// The variant that `dfu_core::DfuProtocol::new` makes from an interface string and a
/// version, or `None` where it refuses them. How a DfuSe string is read is that
/// crate's matter and is not restated here.
pub uninterp spec fn protocol_of(interface_string: Seq<char>, major: u8, minor: u8) -> Option<
    ProtocolModel,
>;

/// An interface string without its trailing NUL characters.
pub open spec fn trim_nul(s: Seq<char>) -> Seq<char>
    decreases s.len(),
{
    if s.len() > 0 && s.last() == '\0' {
        trim_nul(s.drop_last())
    } else {
        s
    }
}

/// `c` is one of the ten decimal digits.
pub open spec fn is_digit(c: char) -> bool {
    0x30 <= c as u32 <= 0x39
}

/// The number written by the digits that end just before position `end` of `s`, as
/// far back as digits go; 0 where no digit stands there.
pub open spec fn number_before(s: Seq<char>, end: int) -> nat
    decreases end,
{
    if 0 < end <= s.len() && is_digit(s[end - 1]) {
        10 * number_before(s, end - 1) + (s[end - 1] as u32 - 0x30) as nat
    } else {
        0
    }
}

/// Where the digits that end just before position `end` of `s` begin; `end` itself
/// where no digit stands there.
pub open spec fn number_start(s: Seq<char>, end: int) -> int
    decreases end,
{
    if 0 < end <= s.len() && is_digit(s[end - 1]) {
        number_start(s, end - 1)
    } else {
        end
    }
}

/// The number that ends just before position `end` of `s` stands where a page size
/// does: directly behind a `*`, with or without a `+` in between.
pub open spec fn follows_star(s: Seq<char>, end: int) -> bool {
    let start = number_start(s, end);
    ||| 1 <= start <= s.len() && s[start - 1] == '*'
    ||| 2 <= start <= s.len() && s[start - 1] == '+' && s[start - 2] == '*'
}

/// Position `i` of `s` is where the unit of a page size stands: it is the last
/// character but one of a part between commas.
pub open spec fn is_unit_position(s: Seq<char>, i: int) -> bool {
    i + 1 < s.len() && s[i + 1] != ',' && (i + 2 == s.len() || s[i + 2] == ',')
}

/// Position `i` of `s` holds a character outside ASCII, or the unit of a page size
/// that fits 32 bits by itself and no longer does with its unit: a `K` behind a
/// number from 4194304 on, or an `M` behind a number from 4096 on.
pub open spec fn out_of_range_at(s: Seq<char>, i: int) -> bool {
    ||| s[i] as u32 >= 0x80
    ||| (is_unit_position(s, i) && follows_star(s, i) && number_before(s, i) < 0x1_0000_0000 && {
        ||| s[i] == 'K' && number_before(s, i) * 1024 >= 0x1_0000_0000
        ||| s[i] == 'M' && number_before(s, i) * 1048576 >= 0x1_0000_0000
    })
}

/// The memory layout of a DfuSe interface string, which is what follows its last `/`,
/// is within the machine's limits: it is ASCII, and no page size in it, taken with
/// its unit, reaches 2^32 bytes. The number of pages is not bounded. A string
/// without a `/` has no memory layout and is within the limits.
pub open spec fn layout_in_range(s: Seq<char>) -> bool {
    (exists|j: int| 0 <= j < s.len() && s[j] == '/') ==> (forall|i: int|
        0 <= i < s.len() && #[trigger] out_of_range_at(s, i) ==> exists|j: int|
            i < j < s.len() && s[j] == '/')
}

/// The interface string and version can be handed to the parser: for every version but
/// DfuSe's the string is not read at all.
pub open spec fn protocol_input_in_range(s: Seq<char>, major: u8, minor: u8) -> bool {
    is_dfuse_version(major, minor) ==> layout_in_range(s)
}

/// Removes the NUL characters that end an interface string.
pub fn trim_trailing_nul(s: &str) -> (r: &str)
    ensures
        r@ == trim_nul(s@),
{
    let len = s.unicode_len();
    let mut n: usize = len;
    proof {
        assert(s@.subrange(0, len as int) =~= s@);
    }
    while n > 0 && s.get_char(n - 1) == '\0'
        invariant
            n <= len,
            len == s@.len(),
            trim_nul(s@) == trim_nul(s@.subrange(0, n as int)),
        decreases n,
    {
        proof {
            assert(s@.subrange(0, n as int).drop_last() =~= s@.subrange(0, n as int - 1));
        }
        n = n - 1;
    }
    s.substring_char(0, n)
}

/// What trimming leaves is the string up to its last character other than NUL: a
/// prefix that does not end in NUL, with nothing but NUL cut off behind it.
pub proof fn trim_nul_cuts_trailing_nul_only(s: Seq<char>)
    ensures
        trim_nul(s).len() <= s.len(),
        trim_nul(s) == s.subrange(0, trim_nul(s).len() as int),
        forall|i: int| trim_nul(s).len() <= i < s.len() ==> s[i] == '\0',
        trim_nul(s).len() == 0 || trim_nul(s).last() != '\0',
    decreases s.len(),
{
    if s.len() > 0 && s.last() == '\0' {
        trim_nul_cuts_trailing_nul_only(s.drop_last());
        assert(trim_nul(s) =~= s.subrange(0, trim_nul(s).len() as int));
        assert forall|i: int| trim_nul(s).len() <= i < s.len() implies s[i] == '\0' by {
            if i < s.len() - 1 {
                assert(s[i] == s.drop_last()[i]);
            }
        }
    } else {
        assert(s =~= s.subrange(0, s.len() as int));
    }
}

/// Whether the memory layout of an interface string is within the machine's limits.
pub fn check_layout_in_range(s: &str) -> (ok: bool)
    ensures
        ok == layout_in_range(s@),
{
    let len = s.unicode_len();
    let mut i: usize = 0;
    let mut number: u64 = 0;
    let mut starred = false;
    let mut after_star = false;
    let mut seen = false;
    let mut bad = false;
    let ghost mut slash_at: int = 0;
    let ghost mut bad_at: int = 0;
    while i < len
        invariant
            i <= len,
            len == s@.len(),
            number <= 0x1_0000_0000,
            number == if number_before(s@, i as int) < 0x1_0000_0000 {
                number_before(s@, i as int)
            } else {
                0x1_0000_0000
            },
            starred == follows_star(s@, i as int),
            after_star == (i > 0 && s@[i - 1] == '*'),
            seen ==> 0 <= slash_at < i && s@[slash_at] == '/',
            !seen ==> forall|j: int| 0 <= j < i ==> s@[j] != '/',
            bad ==> 0 <= bad_at < i && out_of_range_at(s@, bad_at) && forall|j: int|
                bad_at < j < i ==> s@[j] != '/',
            !bad ==> forall|k: int|
                0 <= k < i && #[trigger] out_of_range_at(s@, k) ==> exists|j: int|
                    k < j < i && s@[j] == '/',
        decreases len - i,
    {
        let c = s.get_char(i);
        let code: u32 = c as u32;
        let unit = i + 1 < len && s.get_char(i + 1) != ',' && (i + 2 == len || s.get_char(i + 2)
            == ',');
        let fits = number < 0x1_0000_0000;
        let overflows = (c == 'K' && number >= 0x40_0000) || (c == 'M' && number >= 0x1000);
        let too_large = unit && starred && fits && overflows;
        if c == '/' {
            proof {
                slash_at = i as int;
                assert(s@[i as int] == '/');
            }
            seen = true;
            bad = false;
        } else if code >= 0x80 || too_large {
            proof {
                bad_at = i as int;
            }
            bad = true;
        }
        if 0x30 <= code && code <= 0x39 {
            let next: u64 = 10 * number + (code - 0x30) as u64;
            number = if next < 0x1_0000_0000 {
                next
            } else {
                0x1_0000_0000
            };
        } else {
            number = 0;
            starred = c == '*' || (c == '+' && after_star);
        }
        after_star = c == '*';
        i = i + 1;
    }
    !seen || !bad
}

/// Whether an interface string and a version can be handed to the parser.
pub fn check_protocol_input(s: &str, version: (u8, u8)) -> (ok: bool)
    ensures
        ok == protocol_input_in_range(s@, version.0, version.1),
{
    if version.0 == 0x01 && version.1 == 0x1a {
        check_layout_in_range(s)
    } else {
        true
    }
}

/// Calls `dfu_core::DfuProtocol::new`. Taken on trust: the call succeeds exactly where
/// `protocol_of` names a variant, and returns that variant; version 1.1 gives plain
/// DFU whatever the string; a version other than 1.1 and 1.1a is refused. The call
/// cuts the memory layout at byte positions and multiplies each page size by its unit
/// in 32 bits, which is why the memory layout must be within range.
#[verifier::external_body]
pub(crate) fn parse_protocol(interface_string: &str, major: u8, minor: u8) -> (r: Result<
    ProtocolVariant,
    dfu_core::Error,
>)
    requires
        protocol_input_in_range(interface_string@, major, minor),
    ensures
        (r is Ok) == (protocol_of(interface_string@, major, minor) is Some),
        r is Ok ==> Some(r->Ok_0@) == protocol_of(interface_string@, major, minor),
        is_dfu_version(major, minor) ==> r is Ok && r->Ok_0@ == ProtocolModel::Dfu,
        !is_dfu_version(major, minor) && !is_dfuse_version(major, minor) ==> r is Err,
{
    match dfu_core::DfuProtocol::new(interface_string, (major, minor)) {
        Ok(dfu_core::DfuProtocol::Dfu) => Ok(ProtocolVariant::Dfu),
        Ok(dfu_core::DfuProtocol::Dfuse { address, memory_layout }) => Ok(
            ProtocolVariant::Dfuse { address, memory_layout: memory_layout.to_vec() },
        ),
        Err(e) => Err(e),
    }
}

} // verus!
