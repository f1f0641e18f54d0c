//! Metadata about programs and devices: identifiers, versions, program ids
//! and device information.

use vstd::prelude::*;
use core::time::Duration;
use vstd::string::StringSliceAdditionalSpecFns;
use crate::isa::MemoryDump;
use crate::control::load::hash_page;

verus! {

/// Whether every byte of `s` is an ASCII byte (high bit clear).
pub open spec fn all_ascii(s: Seq<u8>) -> bool {
    forall|i: int| 0 <= i < s.len() ==> #[trigger] s[i] < 128
}

/// The UTF-8 bytes of `core::str::from_utf8`'s argument, when it succeeds.
///
/// Wraps `core::str::from_utf8`. Claimed: on success the returned string's
/// bytes are exactly the input bytes, and an input made only of ASCII bytes
/// is always accepted (ASCII is valid UTF-8). Whether other inputs are
/// accepted is left unsaid.
#[verifier::external_body]
pub(crate) fn str_from_utf8(bytes: &[u8]) -> (r: Result<&str, core::str::Utf8Error>)
    ensures
        all_ascii(bytes@) ==> r is Ok,
        r matches Ok(s) ==> s.spec_bytes() == bytes@,
{
    core::str::from_utf8(bytes)
}

#[verifier::external_type_specification]
#[verifier::external_body]
pub struct ExUtf8Error(core::str::Utf8Error);

/// Whole seconds of a `Duration`.
pub uninterp spec fn duration_whole_secs(d: Duration) -> u64;

/// Wraps `Duration::as_secs`: the number of whole seconds the duration
/// holds. The value is named, not computed here.
#[verifier::external_body]
pub(crate) fn duration_as_secs(d: &Duration) -> (s: u64)
    ensures
        s == duration_whole_secs(*d),
{
    d.as_secs()
}

/// Trailing ASCII spaces removed from the end of `s`.
pub open spec fn trim_trailing_spaces(s: Seq<u8>) -> Seq<u8>
    decreases s.len(),
{
    if s.len() == 0 {
        s
    } else if s.last() == 32u8 {
        trim_trailing_spaces(s.drop_last())
    } else {
        s
    }
}

/// A short (four byte) ASCII identifier, i.e. a device name or a
/// pre-release tag.
#[derive(Debug, Copy, Clone, PartialEq, Eq, PartialOrd, Ord, Hash)]
pub struct Identifier([u8; 4]);

impl View for Identifier {
    type V = Seq<u8>;

    closed spec fn view(&self) -> Seq<u8> {
        self.0@
    }
}

impl Identifier {
    /// Maximum number of bytes in an identifier.
    pub const MAX_LEN: usize = 4;

    #[verifier::type_invariant]
    closed spec fn inv(self) -> bool {
        all_ascii(self.0@)
    }

    /// An identifier holds four bytes.
    pub proof fn lemma_four_bytes(self)
        ensures
            self@.len() == 4,
    {
    }

    /// Builds an identifier from four bytes; fails if any byte isn't ASCII.
    pub fn new(name: [u8; 4]) -> (r: Result<Self, ()>)
        ensures
            r is Ok <==> all_ascii(name@),
            r matches Ok(id) ==> id@ == name@,
    {
        let mut i: usize = 0;
        while i < 4
            invariant
                0 <= i <= 4,
                forall|j: int| 0 <= j < i ==> #[trigger] name@[j] < 128,
            decreases 4 - i,
        {
            if name[i] >= 128 {
                return Err(());
            }
            i = i + 1;
        }
        Ok(Identifier(name))
    }

    /// Builds an identifier from a string whose UTF-8 encoding is exactly
    /// four ASCII bytes; fails otherwise.
    pub fn new_from_str(name: &str) -> (r: Result<Self, ()>)
        ensures
            r is Ok <==> (name.spec_bytes().len() == 4 && all_ascii(name.spec_bytes())),
            r matches Ok(id) ==> id@ == name.spec_bytes(),
    {
        let bytes = name.as_bytes();
        if bytes.len() != 4 {
            return Err(());
        }
        let arr: [u8; 4] = [bytes[0], bytes[1], bytes[2], bytes[3]];
        assert(arr@ =~= bytes@);
        Self::new(arr)
    }

    /// The blank identifier: four spaces.
    pub fn empty() -> (r: Self)
        ensures
            r@ == seq![32u8, 32u8, 32u8, 32u8],
    {
        Self::new_that_crashes_on_invalid_inputs([32u8, 32u8, 32u8, 32u8])
    }

    /// Builds an identifier from four bytes that must all be ASCII.
    pub fn new_that_crashes_on_invalid_inputs(name: [u8; 4]) -> (r: Self)
        requires
            all_ascii(name@),
        ensures
            r@ == name@,
    {
        Identifier(name)
    }

    /// Builds an identifier from a string that must encode to exactly four
    /// ASCII bytes.
    pub fn new_from_str_that_crashes_on_invalid_inputs(name: &str) -> (r: Self)
        requires
            name.spec_bytes().len() == 4,
            all_ascii(name.spec_bytes()),
        ensures
            r@ == name.spec_bytes(),
    {
        let slice = name.as_bytes();
        let arr: [u8; 4] = [slice[0], slice[1], slice[2], slice[3]];
        assert(arr@ =~= slice@);
        Self::new_that_crashes_on_invalid_inputs(arr)
    }

    /// The identifier as a string slice.
    pub fn as_str(&self) -> (s: &str)
        ensures
            s.spec_bytes() == self@,
            all_ascii(self@),
    {
        proof {
            use_type_invariant(self);
        }
        let r = str_from_utf8(self.0.as_slice());
        match r {
            Ok(s) => s,
            Err(_) => {
                proof {
                    assert(false);
                }
                ""
            },
        }
    }
}

/// An eight byte ASCII identifier, used to name programs.
#[derive(Debug, Copy, Clone, PartialEq, Eq, Hash)]
pub struct LongIdentifier([u8; 8]);

impl View for LongIdentifier {
    type V = Seq<u8>;

    closed spec fn view(&self) -> Seq<u8> {
        self.0@
    }
}

/// The bytes of `unknown!`.
pub open spec fn unknown_long_identifier_bytes() -> Seq<u8> {
    seq![117u8, 110u8, 107u8, 110u8, 111u8, 119u8, 110u8, 33u8]
}

/// What `LongIdentifier::new_truncated_padded` makes of the characters
/// `cs`: their first (at most) eight characters as bytes, padded with NULs.
pub open spec fn truncated_padded(cs: Seq<char>) -> Seq<u8> {
    Seq::new(8, |i: int| if i < cs.len() { (cs[i] as u32) as u8 } else { 0u8 })
}

/// Whether the first (at most) eight characters of `cs` are ASCII.
pub open spec fn first_eight_ascii(cs: Seq<char>) -> bool {
    forall|i: int| 0 <= i < cs.len() && i < 8 ==> (#[trigger] cs[i] as u32) < 128
}

impl Default for LongIdentifier {
    fn default() -> (r: Self)
        ensures
            r@ == unknown_long_identifier_bytes(),
    {
        Self::unknown()
    }
}

impl LongIdentifier {
    /// Maximum number of bytes in a long identifier.
    pub const MAX_LEN: usize = 8;

    #[verifier::type_invariant]
    closed spec fn inv(self) -> bool {
        all_ascii(self.0@)
    }

    /// A long identifier holds eight bytes.
    pub proof fn lemma_eight_bytes(self)
        ensures
            self@.len() == 8,
    {
    }

    /// The identifier used for programs with no name: `unknown!`.
    pub fn unknown() -> (r: Self)
        ensures
            r@ == unknown_long_identifier_bytes(),
    {
        Self::new_that_crashes_on_invalid_inputs([117u8, 110u8, 107u8, 110u8, 111u8, 119u8, 110u8, 33u8])
    }

    /// Builds a long identifier from eight bytes; fails if any byte isn't
    /// ASCII.
    pub fn new(name: [u8; 8]) -> (r: Result<Self, ()>)
        ensures
            r is Ok <==> all_ascii(name@),
            r matches Ok(id) ==> id@ == name@,
    {
        let mut i: usize = 0;
        while i < 8
            invariant
                0 <= i <= 8,
                forall|j: int| 0 <= j < i ==> #[trigger] name@[j] < 128,
            decreases 8 - i,
        {
            if name[i] >= 128 {
                return Err(());
            }
            i = i + 1;
        }
        Ok(LongIdentifier(name))
    }

    /// Builds a long identifier from a string whose UTF-8 encoding is
    /// exactly eight ASCII bytes; fails otherwise.
    pub fn new_from_str(name: &str) -> (r: Result<Self, ()>)
        ensures
            r is Ok <==> (name.spec_bytes().len() == 8 && all_ascii(name.spec_bytes())),
            r matches Ok(id) ==> id@ == name.spec_bytes(),
    {
        let b = name.as_bytes();
        if b.len() != 8 {
            return Err(());
        }
        let arr: [u8; 8] = [b[0], b[1], b[2], b[3], b[4], b[5], b[6], b[7]];
        assert(arr@ =~= b@);
        Self::new(arr)
    }

    /// Builds a long identifier from the first (at most) eight characters
    /// of `name`, padding with NUL bytes; fails if one of those characters
    /// isn't ASCII.
    pub fn new_truncated_padded(name: &str) -> (r: Result<Self, ()>)
        ensures
            r is Ok <==> first_eight_ascii(name@),
            r matches Ok(id) ==> id@ == truncated_padded(name@),
    {
        let mut arr: [u8; 8] = [0u8; 8];
        let len = name.unicode_len();
        let mut idx: usize = 0;
        while idx < 8 && idx < len
            invariant
                len == name@.len(),
                0 <= idx <= 8,
                idx <= len,
                forall|j: int| 0 <= j < 8 ==> #[trigger] arr@[j] < 128,
                forall|j: int| 0 <= j < idx ==> (#[trigger] name@[j] as u32) < 128,
                forall|j: int| 0 <= j < 8 ==> #[trigger] arr@[j] == (if j < idx { (name@[j] as u32) as u8 } else { 0u8 }),
            decreases 8 - idx,
        {
            let c = name.get_char(idx);
            if (c as u32) >= 128 {
                return Err(());
            }
            let cu = c as u32;
            let b = cu as u8;
            assert(cu as u8 == cu) by (bit_vector)
                requires
                    cu < 128,
            ;
            arr[idx] = b;
            idx = idx + 1;
        }
        assert(arr@ =~= truncated_padded(name@));
        Ok(LongIdentifier(arr))
    }

    /// Builds a long identifier from eight bytes that must all be ASCII.
    pub fn new_that_crashes_on_invalid_inputs(name: [u8; 8]) -> (r: Self)
        requires
            all_ascii(name@),
        ensures
            r@ == name@,
    {
        LongIdentifier(name)
    }

    /// Builds a long identifier from a string that must encode to exactly
    /// eight ASCII bytes.
    pub fn new_from_str_that_crashes_on_invalid_inputs(name: &str) -> (r: Self)
        requires
            name.spec_bytes().len() == 8,
            all_ascii(name.spec_bytes()),
        ensures
            r@ == name.spec_bytes(),
    {
        let b = name.as_bytes();
        let arr: [u8; 8] = [b[0], b[1], b[2], b[3], b[4], b[5], b[6], b[7]];
        assert(arr@ =~= b@);
        Self::new_that_crashes_on_invalid_inputs(arr)
    }

    /// The identifier as a string slice.
    pub fn as_str(&self) -> (s: &str)
        ensures
            s.spec_bytes() == self@,
            all_ascii(self@),
    {
        proof {
            use_type_invariant(self);
        }
        let r = str_from_utf8(self.0.as_slice());
        match r {
            Ok(s) => s,
            Err(_) => {
                proof {
                    assert(false);
                }
                ""
            },
        }
    }
}

/// The value of one decimal digit byte (`b'0'` is 0).
pub open spec fn ver_digit(b: u8) -> int {
    b as int - 48
}

/// The hundreds digit of a version component (zero when absent).
pub open spec fn ver_hundreds(b: Seq<u8>) -> int {
    if b.len() == 3 { ver_digit(b[0]) } else { 0 }
}

/// The tens digit of a version component (zero when absent).
pub open spec fn ver_tens(b: Seq<u8>) -> int {
    if b.len() == 3 {
        ver_digit(b[1])
    } else if b.len() == 2 {
        ver_digit(b[0])
    } else {
        0
    }
}

/// The ones digit of a version component.
pub open spec fn ver_ones(b: Seq<u8>) -> int {
    ver_digit(b[b.len() - 1])
}

/// Whether a version component (one to three bytes, none below `'0'`)
/// can be read into a `u8` without any intermediate overflow.
pub open spec fn ver_component_ok(b: Seq<u8>) -> bool {
    &&& 1 <= b.len() <= 3
    &&& forall|i: int| 0 <= i < b.len() ==> #[trigger] b[i] >= 48
    &&& ver_hundreds(b) * 100 <= 255
    &&& ver_tens(b) * 10 <= 255
    &&& ver_hundreds(b) * 100 + ver_tens(b) * 10 <= 255
    &&& ver_hundreds(b) * 100 + ver_tens(b) * 10 + ver_ones(b) <= 255
}

/// The number a version component spells.
pub open spec fn ver_component_value(b: Seq<u8>) -> int {
    ver_hundreds(b) * 100 + ver_tens(b) * 10 + ver_ones(b)
}

/// The decimal spelling of `n` (no leading zeros).
pub open spec fn decimal_bytes(n: nat) -> Seq<u8> {
    if n < 10 {
        seq![(48 + n) as u8]
    } else if n < 100 {
        seq![(48 + n / 10) as u8, (48 + n % 10) as u8]
    } else {
        seq![(48 + n / 100) as u8, (48 + (n / 10) % 10) as u8, (48 + n % 10) as u8]
    }
}

/// A pre-release tag right padded with spaces to four bytes.
pub open spec fn padded_pre(b: Seq<u8>) -> Seq<u8> {
    Seq::new(4, |i: int| if i < b.len() { b[i] } else { 32u8 })
}

/// The pre-release tag a version reports: its identifier with trailing
/// spaces removed, or nothing if there is no identifier or it is blank.
pub open spec fn spec_pre_tag(pre: Option<Identifier>) -> Option<Seq<u8>> {
    match pre {
        None => None,
        Some(id) => if trim_trailing_spaces(id@).len() == 0 {
            None
        } else {
            Some(trim_trailing_spaces(id@))
        },
    }
}

/// Extra, optional functionality a device offers.
#[derive(Debug, Clone, PartialEq, Eq, Hash, Default)]
pub struct Capabilities {
    pub disk: bool,
    pub display: bool,
}

/// A semantic version: major, minor and patch numbers and an optional
/// pre-release tag.
#[derive(Debug, Clone, PartialEq, Eq, PartialOrd, Ord, Hash)]
pub struct Version {
    pub major: u8,
    pub minor: u8,
    pub patch: u8,
    pub pre: Option<Identifier>,
}

impl Default for Version {
    fn default() -> (r: Self)
        ensures
            r == (Version { major: 0, minor: 0, patch: 0, pre: None }),
    {
        Self::empty()
    }
}

/// Reads a version component (one to three digit bytes) into a `u8`.
fn ver_str_to_u8(v: &str) -> (r: u8)
    requires
        ver_component_ok(v.spec_bytes()),
    ensures
        r == ver_component_value(v.spec_bytes()),
{
    let bytes = v.as_bytes();
    let len = bytes.len() - 1;
    let h: u8;
    let t: u8;
    let o: u8;
    if len == 0 {
        h = 0;
        t = 0;
        o = bytes[0] - 48;
    } else if len == 1 {
        h = 0;
        t = bytes[0] - 48;
        o = bytes[1] - 48;
    } else {
        h = bytes[0] - 48;
        t = bytes[1] - 48;
        o = bytes[2] - 48;
    }
    h * 100 + t * 10 + o
}

/// A version as text: `major.minor.patch`, then `-` and the pre-release
/// tag if it reports one.
pub open spec fn version_text(v: Version) -> Seq<u8> {
    let base = decimal_bytes(v.major as nat) + seq![46u8] + decimal_bytes(v.minor as nat) + seq![46u8]
        + decimal_bytes(v.patch as nat);
    match spec_pre_tag(v.pre) {
        Some(tag) => base + seq![45u8] + tag,
        None => base,
    }
}

/// Whether `b` is a version component made only of decimal digits, as
/// Cargo's version variables hold them.
pub open spec fn is_decimal_component(b: Seq<u8>) -> bool {
    &&& ver_component_ok(b)
    &&& forall|i: int| 0 <= i < b.len() ==> 48 <= #[trigger] b[i] <= 57
}

/// The digits of a field read back, as Cargo's version variables are read,
/// to the field.
proof fn lemma_decimal_reads_back(n: u8)
    ensures
        is_decimal_component(decimal_bytes(n as nat)),
        ver_component_value(decimal_bytes(n as nat)) == n,
{
    let m = n as nat;
    assert(m / 100 * 100 + (m / 10) % 10 * 10 + m % 10 == m) by (nonlinear_arith)
        requires m < 256;
    assert(m >= 10 && m < 100 ==> m / 10 * 10 + m % 10 == m) by (nonlinear_arith)
        requires m < 256;
    assert(m / 100 <= 2 && (m / 10) % 10 <= 9 && m % 10 <= 9 && m / 10 <= 25) by (nonlinear_arith)
        requires m < 256;
}

/// A version's text is its three fields in decimal, separated by dots, each
/// reading back to the field as Cargo's version variables are read; then,
/// when the version reports a pre-release tag (what `get_pre` gives), `-`
/// and exactly that tag.
pub proof fn lemma_version_text_reads_back(v: Version)
    ensures
        exists|x: Seq<u8>, y: Seq<u8>, z: Seq<u8>|
            #![trigger ver_component_value(x), ver_component_value(y), ver_component_value(z)]
            {
                &&& is_decimal_component(x) && ver_component_value(x) == v.major
                &&& is_decimal_component(y) && ver_component_value(y) == v.minor
                &&& is_decimal_component(z) && ver_component_value(z) == v.patch
                &&& spec_pre_tag(v.pre) is None ==> version_text(v) == x + seq![46u8] + y + seq![46u8] + z
                &&& spec_pre_tag(v.pre) matches Some(tag) ==> version_text(v) == x + seq![46u8] + y + seq![46u8] + z
                    + seq![45u8] + tag
            },
{
    let x = decimal_bytes(v.major as nat);
    let y = decimal_bytes(v.minor as nat);
    let z = decimal_bytes(v.patch as nat);
    lemma_decimal_reads_back(v.major);
    lemma_decimal_reads_back(v.minor);
    lemma_decimal_reads_back(v.patch);
    if let Some(tag) = spec_pre_tag(v.pre) {
        assert(version_text(v) =~= x + seq![46u8] + y + seq![46u8] + z + seq![45u8] + tag);
    }
}

/// Appends the decimal digits of `n`.
fn push_decimal(buf: &mut Vec<u8>, n: u8)
    ensures
        final(buf)@ == old(buf)@ + decimal_bytes(n as nat),
{
    if n >= 100 {
        buf.push(48u8 + n / 100);
        buf.push(48u8 + (n / 10) % 10);
        buf.push(48u8 + n % 10);
    } else if n >= 10 {
        buf.push(48u8 + n / 10);
        buf.push(48u8 + n % 10);
    } else {
        buf.push(48u8 + n);
    }
}

/// Removing trailing spaces keeps ASCII text ASCII.
proof fn lemma_trim_keeps_ascii(s: Seq<u8>)
    requires
        all_ascii(s),
    ensures
        all_ascii(trim_trailing_spaces(s)),
    decreases s.len(),
{
    if s.len() > 0 && s.last() == 32u8 {
        lemma_trim_keeps_ascii(s.drop_last());
    }
}

impl Version {
    /// The version as text: `major.minor.patch`, then `-` and the
    /// pre-release tag if it reports one.
    pub fn to_string(&self) -> (s: String)
        ensures
            vstd::utf8::encode_utf8(s@) == version_text(*self),
    {
        let mut buf: Vec<u8> = Vec::new();
        push_decimal(&mut buf, self.major);
        buf.push(46u8);
        push_decimal(&mut buf, self.minor);
        buf.push(46u8);
        push_decimal(&mut buf, self.patch);
        let ghost base = buf@;
        assert(all_ascii(base));
        match self.get_pre() {
            Some(pre) => {
                buf.push(45u8);
                let bytes = pre.as_bytes();
                let n = bytes.len();
                let mut i: usize = 0;
                while i < n
                    invariant
                        0 <= i <= n,
                        n == bytes@.len(),
                        buf@ == base + seq![45u8] + bytes@.take(i as int),
                    decreases n - i,
                {
                    buf.push(bytes[i]);
                    assert(bytes@.take(i + 1) =~= bytes@.take(i as int).push(bytes@[i as int]));
                    i = i + 1;
                }
                assert(bytes@.take(n as int) =~= bytes@);
                proof {
                    let id = self.pre->Some_0;
                    lemma_trim_keeps_ascii(id@);
                }
            },
            None => {},
        }
        assert(buf@ == version_text(*self));
        assert(all_ascii(buf@));
        match str_from_utf8(buf.as_slice()) {
            Ok(s) => s.to_owned(),
            Err(_) => {
                proof {
                    assert(false);
                }
                String::new()
            },
        }
    }

    /// The version `0.0.0` with no pre-release tag.
    pub fn empty() -> (r: Self)
        ensures
            r == (Version { major: 0, minor: 0, patch: 0, pre: None }),
    {
        Version { major: 0, minor: 0, patch: 0, pre: None }
    }

    /// A version from its parts.
    pub fn new(major: u8, minor: u8, patch: u8, pre: Option<Identifier>) -> (r: Self)
        ensures
            r == (Version { major, minor, patch, pre }),
    {
        Version { major, minor, patch, pre }
    }

    /// This version with its major number replaced.
    pub fn major(self, major: u8) -> (r: Self)
        ensures
            r == (Version { major, ..self }),
    {
        let mut s = self;
        s.major = major;
        s
    }

    /// This version with its minor number replaced.
    pub fn minor(self, minor: u8) -> (r: Self)
        ensures
            r == (Version { minor, ..self }),
    {
        let mut s = self;
        s.minor = minor;
        s
    }

    /// This version with its patch number replaced.
    pub fn patch(self, patch: u8) -> (r: Self)
        ensures
            r == (Version { patch, ..self }),
    {
        let mut s = self;
        s.patch = patch;
        s
    }

    /// This version with its pre-release tag replaced.
    pub fn pre(self, pre: Identifier) -> (r: Self)
        ensures
            r == (Version { pre: Some(pre), ..self }),
    {
        let mut s = self;
        s.pre = Some(pre);
        s
    }

    /// The pre-release tag without its trailing padding, if there is a
    /// tag that isn't blank.
    pub fn get_pre(&self) -> (r: Option<&str>)
        ensures
            r is Some <==> spec_pre_tag(self.pre) is Some,
            r matches Some(s) ==> spec_pre_tag(self.pre) == Some(s.spec_bytes()),
            self.pre matches Some(id) ==> all_ascii(id@),
    {
        match &self.pre {
            None => None,
            Some(pre) => {
                proof {
                    use_type_invariant(pre);
                }
                let mut idx: usize = 3;
                assert(pre.0@.take(4) =~= pre.0@);
                while pre.0[idx] == 32u8
                    invariant
                        0 <= idx < 4,
                        pre.0@.len() == 4,
                        self.pre == Some(*pre),
                        all_ascii(pre.0@),
                        trim_trailing_spaces(pre.0@) == trim_trailing_spaces(pre.0@.take(idx + 1)),
                    decreases idx,
                {
                    assert(pre.0@.take(idx + 1).drop_last() =~= pre.0@.take(idx as int));
                    assert(trim_trailing_spaces(pre.0@.take(idx + 1)) == trim_trailing_spaces(pre.0@.take(idx as int)));
                    if idx == 0 {
                        assert(pre.0@.take(0) =~= Seq::<u8>::empty());
                        assert(trim_trailing_spaces(pre.0@).len() == 0);
                        assert(pre@ == pre.0@);
                        return None;
                    }
                    idx = idx - 1;
                }
                assert(trim_trailing_spaces(pre.0@.take(idx + 1)) == pre.0@.take(idx + 1));
                let slice = vstd::slice::slice_subrange(pre.0.as_slice(), 0, idx + 1);
                assert(slice@ =~= pre.0@.take(idx + 1));
                assert(all_ascii(slice@));
                match str_from_utf8(slice) {
                    Ok(s) => Some(s),
                    Err(_) => {
                        proof {
                            assert(false);
                        }
                        None
                    },
                }
            },
        }
    }

    /// This version with its pre-release tag set from a string that must
    /// encode to exactly four ASCII bytes.
    pub fn pre_from_str_that_crashes_on_invalid_inputs(self, pre: &str) -> (r: Self)
        requires
            pre.spec_bytes().len() == 4,
            all_ascii(pre.spec_bytes()),
        ensures
            r.major == self.major,
            r.minor == self.minor,
            r.patch == self.patch,
            r.pre matches Some(id) && id@ == pre.spec_bytes(),
    {
        self.pre(Identifier::new_from_str_that_crashes_on_invalid_inputs(pre))
    }

    /// Reads a version from the strings Cargo provides for a crate's
    /// version: decimal major, minor and patch numbers and a pre-release
    /// tag of at most four ASCII bytes (empty when there is none).
    pub fn from_cargo_env_vars(major: &str, minor: &str, patch: &str, pre: &str) -> (r: Self)
        requires
            ver_component_ok(major.spec_bytes()),
            ver_component_ok(minor.spec_bytes()),
            ver_component_ok(patch.spec_bytes()),
            pre.spec_bytes().len() <= 4,
            all_ascii(pre.spec_bytes()),
        ensures
            r.major == ver_component_value(major.spec_bytes()),
            r.minor == ver_component_value(minor.spec_bytes()),
            r.patch == ver_component_value(patch.spec_bytes()),
            pre.spec_bytes().len() == 0 ==> r.pre is None,
            pre.spec_bytes().len() > 0 ==> (r.pre matches Some(id) && id@ == padded_pre(pre.spec_bytes())),
    {
        let (major, minor, patch) = (ver_str_to_u8(major), ver_str_to_u8(minor), ver_str_to_u8(patch));
        let bytes = pre.as_bytes();
        let len = bytes.len();
        let mut padded: [u8; 4] = [32u8; 4];
        let mut i: usize = 0;
        while i < len
            invariant
                len == bytes@.len(),
                len <= 4,
                0 <= i <= len,
                all_ascii(bytes@),
                forall|j: int| 0 <= j < 4 ==> #[trigger] padded@[j] == (if j < i { bytes@[j] } else { 32u8 }),
            decreases len - i,
        {
            padded[i] = bytes[i];
            i = i + 1;
        }
        assert(padded@ =~= padded_pre(bytes@));
        assert(all_ascii(padded@));
        let id = Identifier::new_that_crashes_on_invalid_inputs(padded);
        let pre = if len == 0 { None } else { Some(id) };
        Self::new(major, minor, patch, pre)
    }
}

/// Reading Cargo's decimal spelling of any `u8` gives that number back.
pub proof fn lemma_version_component_roundtrip(n: u8)
    ensures
        ver_component_ok(decimal_bytes(n as nat)),
        ver_component_value(decimal_bytes(n as nat)) == n,
{
    let b = decimal_bytes(n as nat);
    if n < 10 {
    } else if n < 100 {
        assert(ver_digit(b[0]) == n / 10);
        assert(ver_digit(b[1]) == n % 10);
    } else {
        assert(ver_digit(b[0]) == n / 100);
        assert(ver_digit(b[1]) == (n / 10) % 10);
        assert(ver_digit(b[2]) == n % 10);
        assert(n / 100 <= 2);
        assert(n / 100 == 2 ==> (n / 10) % 10 <= 5);
    }
}

/// Trimming a padded tag cut to `k` bytes gives the tag back.
proof fn lemma_trim_padding(tag: Seq<u8>, k: int)
    requires
        1 <= tag.len() <= k <= 4,
        tag.last() != 32u8,
    ensures
        trim_trailing_spaces(padded_pre(tag).take(k)) == tag,
    decreases k,
{
    let p = padded_pre(tag);
    if k == tag.len() {
        assert(p.take(k) =~= tag);
    } else {
        assert(p.take(k).drop_last() =~= p.take(k - 1));
        lemma_trim_padding(tag, k - 1);
    }
}

/// A non-empty pre-release tag that doesn't end in a space is reported
/// back unchanged by a version built from it.
pub proof fn lemma_pre_release_roundtrip(v: Version, tag: Seq<u8>)
    requires
        1 <= tag.len() <= 4,
        tag.last() != 32u8,
        v.pre matches Some(id) && id@ == padded_pre(tag),
    ensures
        spec_pre_tag(v.pre) == Some(tag),
{
    lemma_trim_padding(tag, 4);
    assert(padded_pre(tag).take(4) =~= padded_pre(tag));
}

/// Identifies a program by a hash of its memory image, when known.
#[derive(Debug, Copy, Clone, PartialEq, Eq, Hash)]
pub enum ProgramId {
    Known { hash: u64 },
    Unknown,
}

impl Default for ProgramId {
    fn default() -> (r: Self)
        ensures
            r == ProgramId::Unknown,
    {
        ProgramId::Unknown
    }
}

impl ProgramId {
    /// The id of a program whose image isn't known.
    pub fn unknown() -> (r: Self)
        ensures
            r == ProgramId::Unknown,
    {
        ProgramId::Unknown
    }

    /// The id of a program: a hash of its memory image.
    pub fn new(program: &MemoryDump) -> (r: Self)
        ensures
            r is Known,
    {
        ProgramId::Known { hash: hash_page(program.0.as_slice()) }
    }
}

/// A program's name, id and modification time.
#[derive(Debug, Clone, PartialEq, Eq, Hash)]
pub struct ProgramMetadata {
    pub name: LongIdentifier,
    pub id: ProgramId,
    /// Time the program was modified in seconds since the Unix epoch.
    pub last_modified: u64,
}

impl Default for ProgramMetadata {
    fn default() -> (r: Self)
        ensures
            r.name@ == unknown_long_identifier_bytes(),
            r.id == ProgramId::Unknown,
            r.last_modified == 0,
    {
        Self::empty()
    }
}

impl ProgramMetadata {
    /// Metadata for an unknown, unnamed program.
    pub fn empty() -> (r: Self)
        ensures
            r.name@ == unknown_long_identifier_bytes(),
            r.id == ProgramId::Unknown,
            r.last_modified == 0,
    {
        ProgramMetadata { name: LongIdentifier::unknown(), id: ProgramId::unknown(), last_modified: 0 }
    }

    /// Metadata for the program `program`, named `name` and modified
    /// `modified` after the Unix epoch.
    pub fn new(name: LongIdentifier, program: &MemoryDump, modified: Duration) -> (r: Self)
        ensures
            r.name == name,
            r.id is Known,
            r.last_modified == duration_whole_secs(modified),
    {
        ProgramMetadata { name, id: ProgramId::new(program), last_modified: duration_as_secs(&modified) }
    }

    /// Same as `new`, taking the program image by value.
    pub fn from(name: LongIdentifier, program: MemoryDump, modified: Duration) -> (r: Self)
        ensures
            r.name == name,
            r.id is Known,
            r.last_modified == duration_whole_secs(modified),
    {
        Self::new(name, &program, modified)
    }

    /// Records a new modification time.
    pub fn set_last_modified(&mut self, modified: Duration)
        ensures
            final(self).name == old(self).name,
            final(self).id == old(self).id,
            final(self).last_modified == duration_whole_secs(modified),
    {
        self.last_modified = duration_as_secs(&modified);
    }
}

/// Number of proxies a device's information can list.
pub const MAX_NUM_PROXIES: usize = 3;

/// The slot `DeviceInfo::add_proxy` fills: the first empty one.
pub open spec fn first_free_proxy(p: Seq<Option<(Identifier, Version)>>) -> int
    decreases p.len(),
{
    if p.len() == 0 {
        0
    } else if p[0] is None {
        0
    } else {
        1 + first_free_proxy(p.drop_first())
    }
}

/// Information about a device running the control interface.
#[derive(Debug, Clone, PartialEq, Eq, Hash)]
pub struct DeviceInfo {
    /// Name of the device.
    pub name: Identifier,
    /// Version of the software running on the device.
    pub version: Version,
    /// Id of the type implementing the control interface on the device.
    pub type_id: u64,
    /// Extra functionality supported by the device.
    pub capabilities: Capabilities,
    /// The proxies between the device and the user of the control
    /// interface.
    pub proxies: [Option<(Identifier, Version)>; 3],
}

impl DeviceInfo {
    /// Device information from its parts; `type_id` is the numeric id of the
    /// control implementation's type.
    pub fn new(
        name: Identifier,
        version: Version,
        type_id: u64,
        capabilities: Capabilities,
        proxies: [Option<(Identifier, Version)>; 3],
    ) -> (r: Self)
        ensures
            r == (DeviceInfo { name, version, type_id, capabilities, proxies }),
    {
        DeviceInfo { name, version, type_id, capabilities, proxies }
    }

    /// Records one more proxy in the first free slot; hands the information
    /// back unchanged, as an error, when every slot is taken.
    pub fn add_proxy(self, proxy: Identifier, version: Version) -> (r: Result<Self, Self>)
        ensures
            first_free_proxy(self.proxies@) < 3 ==> (r matches Ok(d) && d == (DeviceInfo {
                proxies: d.proxies,
                ..self
            }) && d.proxies@ == self.proxies@.update(first_free_proxy(self.proxies@), Some((proxy, version)))),
            first_free_proxy(self.proxies@) >= 3 ==> r == Err::<Self, Self>(self),
    {
        let mut s = self;
        let mut i: usize = 0;
        while i < 3
            invariant
                0 <= i <= 3,
                s == self,
                forall|j: int| 0 <= j < i ==> (#[trigger] s.proxies@[j]) is Some,
            decreases 3 - i,
        {
            if s.proxies[i].is_none() {
                proof {
                    lemma_first_free_proxy(s.proxies@, i as int);
                }
                s.proxies[i] = Some((proxy, version));
                return Ok(s);
            }
            i = i + 1;
        }
        proof {
            lemma_first_free_proxy(s.proxies@, 3);
        }
        Err(s)
    }
}

/// `first_free_proxy` is the index of the first empty slot (or the length
/// when there is none).
proof fn lemma_first_free_proxy(p: Seq<Option<(Identifier, Version)>>, i: int)
    requires
        0 <= i <= p.len(),
        forall|j: int| 0 <= j < i ==> (#[trigger] p[j]) is Some,
        i < p.len() ==> p[i] is None,
    ensures
        first_free_proxy(p) == i,
    decreases p.len(),
{
    if p.len() > 0 && i > 0 {
        assert(p[0] is Some);
        assert forall|j: int| 0 <= j < i - 1 implies (#[trigger] p.drop_first()[j]) is Some by {
            assert(p[j + 1] is Some);
        }
        lemma_first_free_proxy(p.drop_first(), i - 1);
    }
}

} // verus!
