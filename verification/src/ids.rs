//! Validated, prefixed textual identities and the fixed-size values that
//! accompany them on the wire.

use vstd::prelude::*;
use vstd::utf8::encode_utf8;

use crate::domain::DomainError;

verus! {

/// Maximum length, in bytes, of a textual protocol identifier.
pub const MAX_IDENTIFIER_LENGTH: usize = 128;

/// Bytes allowed after an identifier's prefix: ASCII letters and digits,
/// `_`, `-` and `.`.
pub open spec fn is_identifier_byte(b: u8) -> bool {
    ||| 48 <= b <= 57
    ||| 65 <= b <= 90
    ||| 97 <= b <= 122
    ||| b == 95
    ||| b == 45
    ||| b == 46
}

/// The canonical form of a prefixed identifier: it starts with `prefix`, has
/// a non-empty body, is at most `MAX_IDENTIFIER_LENGTH` bytes long, and its
/// body holds identifier bytes only.
pub open spec fn identifier_bytes_valid(prefix: Seq<u8>, bytes: Seq<u8>) -> bool {
    &&& prefix.len() < bytes.len() <= MAX_IDENTIFIER_LENGTH
    &&& bytes.subrange(0, prefix.len() as int) == prefix
    &&& forall|i: int| prefix.len() <= i < bytes.len() ==> is_identifier_byte(#[trigger] bytes[i])
}

/// Big-endian two-byte encoding of `n`.
pub open spec fn be_u16(n: nat) -> Seq<u8> {
    seq![(n / 256) as u8, (n % 256) as u8]
}

/// Big-endian four-byte encoding of `n`.
pub open spec fn be_u32(n: nat) -> Seq<u8> {
    seq![(n / 16777216) as u8, ((n / 65536) % 256) as u8, ((n / 256) % 256) as u8, (n % 256) as u8]
}

/// Length-prefixed encoding of one identifier: its UTF-8 byte length as a
/// big-endian `u16` (saturated at `u16::MAX`), then its bytes.
pub open spec fn identifier_encoding(chars: Seq<char>) -> Seq<u8> {
    let bytes = encode_utf8(chars);
    let length = if bytes.len() <= 65535 { bytes.len() } else { 65535 };
    be_u16(length) + bytes
}

/// A concatenation splits uniquely at a known prefix length.
pub proof fn lemma_split_at_equal_lengths<A>(p1: Seq<A>, r1: Seq<A>, p2: Seq<A>, r2: Seq<A>)
    requires
        p1.len() == p2.len(),
        p1 + r1 == p2 + r2,
    ensures
        p1 == p2,
        r1 == r2,
{
    let a = p1 + r1;
    assert(p1 =~= a.subrange(0, p1.len() as int));
    assert(p2 =~= (p2 + r2).subrange(0, p2.len() as int));
    assert(r1 =~= a.subrange(p1.len() as int, a.len() as int));
    assert(r2 =~= (p2 + r2).subrange(p2.len() as int, (p2 + r2).len() as int));
}

/// The big-endian two-byte encoding is injective on two-byte lengths.
pub proof fn lemma_be_u16_injective(n: nat, m: nat)
    requires
        n <= 65535,
        m <= 65535,
        be_u16(n) == be_u16(m),
    ensures
        n == m,
{
    assert(be_u16(n)[0] == be_u16(m)[0]);
    assert(be_u16(n)[1] == be_u16(m)[1]);
    assert(n / 256 == m / 256 && n % 256 == m % 256) by (nonlinear_arith)
        requires
            n <= 65535,
            m <= 65535,
            (n / 256) as u8 == (m / 256) as u8,
            (n % 256) as u8 == (m % 256) as u8,
    ;
    assert(n == 256 * (n / 256) + n % 256) by (nonlinear_arith);
    assert(m == 256 * (m / 256) + m % 256) by (nonlinear_arith);
}

/// The big-endian four-byte encoding is injective on `u32` values.
pub proof fn lemma_be_u32_injective(n: u32, m: u32)
    requires
        be_u32(n as nat) == be_u32(m as nat),
    ensures
        n == m,
{
    assert(be_u32(n as nat)[0] == be_u32(m as nat)[0]);
    assert(be_u32(n as nat)[1] == be_u32(m as nat)[1]);
    assert(be_u32(n as nat)[2] == be_u32(m as nat)[2]);
    assert(be_u32(n as nat)[3] == be_u32(m as nat)[3]);
    let (a0, a1, a2, a3) = (n / 16777216, (n / 65536) % 256, (n / 256) % 256, n % 256);
    let (b0, b1, b2, b3) = (m / 16777216, (m / 65536) % 256, (m / 256) % 256, m % 256);
    assert(a0 < 256 && a1 < 256 && a2 < 256 && a3 < 256 && b0 < 256 && b1 < 256 && b2 < 256 && b3
        < 256) by (nonlinear_arith)
        requires
            n <= u32::MAX,
            m <= u32::MAX,
            a0 == n / 16777216,
            b0 == m / 16777216,
            a1 == (n / 65536) % 256,
            b1 == (m / 65536) % 256,
            a2 == (n / 256) % 256,
            b2 == (m / 256) % 256,
            a3 == n % 256,
            b3 == m % 256,
    ;
    assert(a0 == b0 && a1 == b1 && a2 == b2 && a3 == b3);
    assert(n == 16777216 * a0 + 65536 * a1 + 256 * a2 + a3) by (nonlinear_arith)
        requires
            a0 == n / 16777216,
            a1 == (n / 65536) % 256,
            a2 == (n / 256) % 256,
            a3 == n % 256,
            n <= u32::MAX,
    ;
    assert(m == 16777216 * b0 + 65536 * b1 + 256 * b2 + b3) by (nonlinear_arith)
        requires
            b0 == m / 16777216,
            b1 == (m / 65536) % 256,
            b2 == (m / 256) % 256,
            b3 == m % 256,
            m <= u32::MAX,
    ;
}

/// Length-prefixed identifier encodings are unambiguous: when two
/// identifiers short enough for their length prefix start two equal byte
/// sequences, the identifiers and the remaining bytes are equal.
#[verifier::spinoff_prover]
pub proof fn lemma_identifier_encoding_unambiguous(
    x: Seq<char>,
    y: Seq<char>,
    rest_x: Seq<u8>,
    rest_y: Seq<u8>,
)
    requires
        encode_utf8(x).len() <= 65535,
        encode_utf8(y).len() <= 65535,
        identifier_encoding(x) + rest_x == identifier_encoding(y) + rest_y,
    ensures
        x == y,
        rest_x == rest_y,
{
    let ex = encode_utf8(x);
    let ey = encode_utf8(y);
    assert(identifier_encoding(x) + rest_x =~= be_u16(ex.len()) + (ex + rest_x));
    assert(identifier_encoding(y) + rest_y =~= be_u16(ey.len()) + (ey + rest_y));
    lemma_split_at_equal_lengths(be_u16(ex.len()), ex + rest_x, be_u16(ey.len()), ey + rest_y);
    lemma_be_u16_injective(ex.len(), ey.len());
    lemma_split_at_equal_lengths(ex, rest_x, ey, rest_y);
    vstd::utf8::encode_utf8_decode_utf8(x);
    vstd::utf8::encode_utf8_decode_utf8(y);
}

pub(crate) fn validate_identifier(prefix: &[u8], value: &str) -> (valid: bool)
    ensures
        valid == identifier_bytes_valid(prefix@, encode_utf8(value@)),
{
    let bytes = value.as_bytes();
    assert(bytes@ == encode_utf8(value@));
    if bytes.len() <= prefix.len() || bytes.len() > MAX_IDENTIFIER_LENGTH {
        return false;
    }
    let mut i: usize = 0;
    while i < prefix.len()
        invariant
            0 <= i <= prefix.len() < bytes.len(),
            bytes@ == encode_utf8(value@),
            forall|j: int| 0 <= j < i ==> bytes@[j] == prefix@[j],
        decreases prefix.len() - i,
    {
        if bytes[i] != prefix[i] {
            assert(bytes@ == encode_utf8(value@));
            assert(bytes@.subrange(0, prefix@.len() as int)[i as int] != prefix@[i as int]);
            return false;
        }
        i = i + 1;
    }
    assert(bytes@.subrange(0, prefix@.len() as int) =~= prefix@);
    while i < bytes.len()
        invariant
            prefix.len() <= i <= bytes.len(),
            bytes@.len() <= MAX_IDENTIFIER_LENGTH,
            bytes@ == encode_utf8(value@),
            bytes@.subrange(0, prefix@.len() as int) == prefix@,
            forall|j: int| prefix.len() <= j < i ==> is_identifier_byte(#[trigger] bytes@[j]),
        decreases bytes.len() - i,
    {
        let b = bytes[i];
        let allowed = (48 <= b && b <= 57) || (65 <= b && b <= 90) || (97 <= b && b <= 122) || b
            == 95 || b == 45 || b == 46;
        if !allowed {
            return false;
        }
        i = i + 1;
    }
    true
}

/// Appends `data` to `bytes`.
pub(crate) fn push_all(bytes: &mut Vec<u8>, data: &[u8])
    ensures
        final(bytes)@ == old(bytes)@ + data@,
{
    bytes.extend_from_slice(data);
    assert(final(bytes)@ =~= old(bytes)@ + data@);
}

pub(crate) fn encode_identifier(bytes: &mut Vec<u8>, value: &str)
    ensures
        final(bytes)@ == old(bytes)@ + identifier_encoding(value@),
{
    let data = value.as_bytes();
    let length: u16 = if data.len() <= 65535 {
        data.len() as u16
    } else {
        65535
    };
    bytes.push((length / 256) as u8);
    bytes.push((length % 256) as u8);
    push_all(bytes, data);
    assert(final(bytes)@ =~= old(bytes)@ + identifier_encoding(value@));
}

/// Appends the big-endian encoding of `n`.
pub(crate) fn push_be_u32(bytes: &mut Vec<u8>, n: u32)
    ensures
        final(bytes)@ == old(bytes)@ + be_u32(n as nat),
{
    bytes.push((n / 16777216) as u8);
    bytes.push(((n / 65536) % 256) as u8);
    bytes.push(((n / 256) % 256) as u8);
    bytes.push((n % 256) as u8);
    assert(final(bytes)@ =~= old(bytes)@ + be_u32(n as nat));
}

/// Fixed-size digest of canonical payload bytes.
#[derive(Debug, Clone, Copy, Hash)]
pub struct ContentDigest(pub [u8; 32]);

impl PartialEq for ContentDigest {
    fn eq(&self, other: &Self) -> (same: bool) {
        let mut i: usize = 0;
        while i < 32
            invariant
                0 <= i <= 32,
                forall|j: int| 0 <= j < i ==> self.0[j] == other.0[j],
            decreases 32 - i,
        {
            if self.0[i] != other.0[i] {
                return false;
            }
            i = i + 1;
        }
        proof {
            broadcast use vstd::array::axiom_array_ext_equal;

            assert(self.0 =~= other.0);
        }
        true
    }
}

impl vstd::std_specs::cmp::PartialEqSpecImpl for ContentDigest {
    open spec fn obeys_eq_spec() -> bool {
        true
    }

    open spec fn eq_spec(&self, other: &Self) -> bool {
        *self == *other
    }
}

impl Eq for ContentDigest {}

/// A deterministic millisecond timestamp supplied by an injected clock.
///
/// The pure engine never reads wall-clock time; it receives this value
/// through an application command or port response.
#[derive(Debug, Clone, Copy, PartialEq, Eq, Structural, PartialOrd, Ord, Hash)]
pub struct LogicalTime(pub u64);

/// Isolated tenant identity.
#[derive(Debug)]
pub struct TenantId(String);

impl View for TenantId {
    type V = Seq<char>;

    closed spec fn view(&self) -> Seq<char> {
        self.0@
    }
}

impl TenantId {
    /// Bytes every `TenantId` starts with (`tnt_`).
    pub open spec fn prefix() -> Seq<u8> {
        seq![116u8, 110u8, 116u8, 95u8]
    }

    /// Whether `chars` is the canonical form of this identifier.
    pub open spec fn is_canonical(chars: Seq<char>) -> bool {
        identifier_bytes_valid(Self::prefix(), encode_utf8(chars))
    }

    /// Type invariant: every value is in canonical form.
    #[verifier::type_invariant]
    pub open spec fn canonical(self) -> bool {
        Self::is_canonical(self@)
    }

    /// Parses and validates the canonical prefixed identifier: the prefix,
    /// a non-empty body of at most the identifier length in bytes, and only
    /// ASCII letters, digits, `_`, `-` or `.` after the prefix.
    pub fn new(value: String) -> (result: Result<Self, DomainError>)
        ensures
            result is Ok <==> Self::is_canonical(value@),
            result matches Ok(id) ==> id@ == value@,
            result matches Err(e) ==> e == DomainError::InvalidTenantId,
    {
        let prefix: [u8; 4] = [116, 110, 116, 95];
        assert(prefix@ =~= Self::prefix());
        if validate_identifier(&prefix, value.as_str()) {
            Ok(TenantId(value))
        } else {
            Err(DomainError::InvalidTenantId)
        }
    }

    /// Returns the canonical wire representation.
    pub fn as_str(&self) -> (s: &str)
        ensures
            s@ == self@,
    {
        self.0.as_str()
    }
}

impl Clone for TenantId {
    fn clone(&self) -> (copy: Self)
        ensures
            copy == *self,
    {
        proof {
            use_type_invariant(self);
        }
        TenantId(self.0.clone())
    }
}

impl PartialEq for TenantId {
    fn eq(&self, other: &Self) -> (same: bool) {
        self.0 == other.0
    }
}

impl vstd::std_specs::cmp::PartialEqSpecImpl for TenantId {
    open spec fn obeys_eq_spec() -> bool {
        true
    }

    open spec fn eq_spec(&self, other: &Self) -> bool {
        self@ == other@
    }
}

impl Eq for TenantId {}

/// Process-instance identity.
#[derive(Debug)]
pub struct ProcessId(String);

impl View for ProcessId {
    type V = Seq<char>;

    closed spec fn view(&self) -> Seq<char> {
        self.0@
    }
}

impl ProcessId {
    /// Bytes every `ProcessId` starts with (`prc_`).
    pub open spec fn prefix() -> Seq<u8> {
        seq![112u8, 114u8, 99u8, 95u8]
    }

    /// Whether `chars` is the canonical form of this identifier.
    pub open spec fn is_canonical(chars: Seq<char>) -> bool {
        identifier_bytes_valid(Self::prefix(), encode_utf8(chars))
    }

    /// Type invariant: every value is in canonical form.
    #[verifier::type_invariant]
    pub open spec fn canonical(self) -> bool {
        Self::is_canonical(self@)
    }

    /// Parses and validates the canonical prefixed identifier: the prefix,
    /// a non-empty body of at most the identifier length in bytes, and only
    /// ASCII letters, digits, `_`, `-` or `.` after the prefix.
    pub fn new(value: String) -> (result: Result<Self, DomainError>)
        ensures
            result is Ok <==> Self::is_canonical(value@),
            result matches Ok(id) ==> id@ == value@,
            result matches Err(e) ==> e == DomainError::InvalidProcessId,
    {
        let prefix: [u8; 4] = [112, 114, 99, 95];
        assert(prefix@ =~= Self::prefix());
        if validate_identifier(&prefix, value.as_str()) {
            Ok(ProcessId(value))
        } else {
            Err(DomainError::InvalidProcessId)
        }
    }

    /// Returns the canonical wire representation.
    pub fn as_str(&self) -> (s: &str)
        ensures
            s@ == self@,
    {
        self.0.as_str()
    }
}

impl Clone for ProcessId {
    fn clone(&self) -> (copy: Self)
        ensures
            copy == *self,
    {
        proof {
            use_type_invariant(self);
        }
        ProcessId(self.0.clone())
    }
}

impl PartialEq for ProcessId {
    fn eq(&self, other: &Self) -> (same: bool) {
        self.0 == other.0
    }
}

impl vstd::std_specs::cmp::PartialEqSpecImpl for ProcessId {
    open spec fn obeys_eq_spec() -> bool {
        true
    }

    open spec fn eq_spec(&self, other: &Self) -> bool {
        self@ == other@
    }
}

impl Eq for ProcessId {}

/// Process-definition identity.
#[derive(Debug)]
pub struct DefinitionId(String);

impl View for DefinitionId {
    type V = Seq<char>;

    closed spec fn view(&self) -> Seq<char> {
        self.0@
    }
}

impl DefinitionId {
    /// Bytes every `DefinitionId` starts with (`def_`).
    pub open spec fn prefix() -> Seq<u8> {
        seq![100u8, 101u8, 102u8, 95u8]
    }

    /// Whether `chars` is the canonical form of this identifier.
    pub open spec fn is_canonical(chars: Seq<char>) -> bool {
        identifier_bytes_valid(Self::prefix(), encode_utf8(chars))
    }

    /// Type invariant: every value is in canonical form.
    #[verifier::type_invariant]
    pub open spec fn canonical(self) -> bool {
        Self::is_canonical(self@)
    }

    /// Parses and validates the canonical prefixed identifier: the prefix,
    /// a non-empty body of at most the identifier length in bytes, and only
    /// ASCII letters, digits, `_`, `-` or `.` after the prefix.
    pub fn new(value: String) -> (result: Result<Self, DomainError>)
        ensures
            result is Ok <==> Self::is_canonical(value@),
            result matches Ok(id) ==> id@ == value@,
            result matches Err(e) ==> e == DomainError::InvalidDefinitionId,
    {
        let prefix: [u8; 4] = [100, 101, 102, 95];
        assert(prefix@ =~= Self::prefix());
        if validate_identifier(&prefix, value.as_str()) {
            Ok(DefinitionId(value))
        } else {
            Err(DomainError::InvalidDefinitionId)
        }
    }

    /// Returns the canonical wire representation.
    pub fn as_str(&self) -> (s: &str)
        ensures
            s@ == self@,
    {
        self.0.as_str()
    }
}

impl Clone for DefinitionId {
    fn clone(&self) -> (copy: Self)
        ensures
            copy == *self,
    {
        proof {
            use_type_invariant(self);
        }
        DefinitionId(self.0.clone())
    }
}

impl PartialEq for DefinitionId {
    fn eq(&self, other: &Self) -> (same: bool) {
        self.0 == other.0
    }
}

impl vstd::std_specs::cmp::PartialEqSpecImpl for DefinitionId {
    open spec fn obeys_eq_spec() -> bool {
        true
    }

    open spec fn eq_spec(&self, other: &Self) -> bool {
        self@ == other@
    }
}

impl Eq for DefinitionId {}

/// Pinned definition version identity.
#[derive(Debug)]
pub struct DefinitionVersion(String);

impl View for DefinitionVersion {
    type V = Seq<char>;

    closed spec fn view(&self) -> Seq<char> {
        self.0@
    }
}

impl DefinitionVersion {
    /// Bytes every `DefinitionVersion` starts with (`dfv_`).
    pub open spec fn prefix() -> Seq<u8> {
        seq![100u8, 102u8, 118u8, 95u8]
    }

    /// Whether `chars` is the canonical form of this identifier.
    pub open spec fn is_canonical(chars: Seq<char>) -> bool {
        identifier_bytes_valid(Self::prefix(), encode_utf8(chars))
    }

    /// Type invariant: every value is in canonical form.
    #[verifier::type_invariant]
    pub open spec fn canonical(self) -> bool {
        Self::is_canonical(self@)
    }

    /// Parses and validates the canonical prefixed identifier: the prefix,
    /// a non-empty body of at most the identifier length in bytes, and only
    /// ASCII letters, digits, `_`, `-` or `.` after the prefix.
    pub fn new(value: String) -> (result: Result<Self, DomainError>)
        ensures
            result is Ok <==> Self::is_canonical(value@),
            result matches Ok(id) ==> id@ == value@,
            result matches Err(e) ==> e == DomainError::InvalidDefinitionVersion,
    {
        let prefix: [u8; 4] = [100, 102, 118, 95];
        assert(prefix@ =~= Self::prefix());
        if validate_identifier(&prefix, value.as_str()) {
            Ok(DefinitionVersion(value))
        } else {
            Err(DomainError::InvalidDefinitionVersion)
        }
    }

    /// Returns the canonical wire representation.
    pub fn as_str(&self) -> (s: &str)
        ensures
            s@ == self@,
    {
        self.0.as_str()
    }
}

impl Clone for DefinitionVersion {
    fn clone(&self) -> (copy: Self)
        ensures
            copy == *self,
    {
        proof {
            use_type_invariant(self);
        }
        DefinitionVersion(self.0.clone())
    }
}

impl PartialEq for DefinitionVersion {
    fn eq(&self, other: &Self) -> (same: bool) {
        self.0 == other.0
    }
}

impl vstd::std_specs::cmp::PartialEqSpecImpl for DefinitionVersion {
    open spec fn obeys_eq_spec() -> bool {
        true
    }

    open spec fn eq_spec(&self, other: &Self) -> bool {
        self@ == other@
    }
}

impl Eq for DefinitionVersion {}

/// Definition step identity.
#[derive(Debug)]
pub struct StepId(String);

impl View for StepId {
    type V = Seq<char>;

    closed spec fn view(&self) -> Seq<char> {
        self.0@
    }
}

impl StepId {
    /// Bytes every `StepId` starts with (`stp_`).
    pub open spec fn prefix() -> Seq<u8> {
        seq![115u8, 116u8, 112u8, 95u8]
    }

    /// Whether `chars` is the canonical form of this identifier.
    pub open spec fn is_canonical(chars: Seq<char>) -> bool {
        identifier_bytes_valid(Self::prefix(), encode_utf8(chars))
    }

    /// Type invariant: every value is in canonical form.
    #[verifier::type_invariant]
    pub open spec fn canonical(self) -> bool {
        Self::is_canonical(self@)
    }

    /// Parses and validates the canonical prefixed identifier: the prefix,
    /// a non-empty body of at most the identifier length in bytes, and only
    /// ASCII letters, digits, `_`, `-` or `.` after the prefix.
    pub fn new(value: String) -> (result: Result<Self, DomainError>)
        ensures
            result is Ok <==> Self::is_canonical(value@),
            result matches Ok(id) ==> id@ == value@,
            result matches Err(e) ==> e == DomainError::InvalidStepId,
    {
        let prefix: [u8; 4] = [115, 116, 112, 95];
        assert(prefix@ =~= Self::prefix());
        if validate_identifier(&prefix, value.as_str()) {
            Ok(StepId(value))
        } else {
            Err(DomainError::InvalidStepId)
        }
    }

    /// Returns the canonical wire representation.
    pub fn as_str(&self) -> (s: &str)
        ensures
            s@ == self@,
    {
        self.0.as_str()
    }
}

impl Clone for StepId {
    fn clone(&self) -> (copy: Self)
        ensures
            copy == *self,
    {
        proof {
            use_type_invariant(self);
        }
        StepId(self.0.clone())
    }
}

impl PartialEq for StepId {
    fn eq(&self, other: &Self) -> (same: bool) {
        self.0 == other.0
    }
}

impl vstd::std_specs::cmp::PartialEqSpecImpl for StepId {
    open spec fn obeys_eq_spec() -> bool {
        true
    }

    open spec fn eq_spec(&self, other: &Self) -> bool {
        self@ == other@
    }
}

impl Eq for StepId {}

/// Immutable inbox input identity.
#[derive(Debug)]
pub struct InputId(String);

impl View for InputId {
    type V = Seq<char>;

    closed spec fn view(&self) -> Seq<char> {
        self.0@
    }
}

impl InputId {
    /// Bytes every `InputId` starts with (`inp_`).
    pub open spec fn prefix() -> Seq<u8> {
        seq![105u8, 110u8, 112u8, 95u8]
    }

    /// Whether `chars` is the canonical form of this identifier.
    pub open spec fn is_canonical(chars: Seq<char>) -> bool {
        identifier_bytes_valid(Self::prefix(), encode_utf8(chars))
    }

    /// Type invariant: every value is in canonical form.
    #[verifier::type_invariant]
    pub open spec fn canonical(self) -> bool {
        Self::is_canonical(self@)
    }

    /// Parses and validates the canonical prefixed identifier: the prefix,
    /// a non-empty body of at most the identifier length in bytes, and only
    /// ASCII letters, digits, `_`, `-` or `.` after the prefix.
    pub fn new(value: String) -> (result: Result<Self, DomainError>)
        ensures
            result is Ok <==> Self::is_canonical(value@),
            result matches Ok(id) ==> id@ == value@,
            result matches Err(e) ==> e == DomainError::InvalidInputId,
    {
        let prefix: [u8; 4] = [105, 110, 112, 95];
        assert(prefix@ =~= Self::prefix());
        if validate_identifier(&prefix, value.as_str()) {
            Ok(InputId(value))
        } else {
            Err(DomainError::InvalidInputId)
        }
    }

    /// Returns the canonical wire representation.
    pub fn as_str(&self) -> (s: &str)
        ensures
            s@ == self@,
    {
        self.0.as_str()
    }
}

impl Clone for InputId {
    fn clone(&self) -> (copy: Self)
        ensures
            copy == *self,
    {
        proof {
            use_type_invariant(self);
        }
        InputId(self.0.clone())
    }
}

impl PartialEq for InputId {
    fn eq(&self, other: &Self) -> (same: bool) {
        self.0 == other.0
    }
}

impl vstd::std_specs::cmp::PartialEqSpecImpl for InputId {
    open spec fn obeys_eq_spec() -> bool {
        true
    }

    open spec fn eq_spec(&self, other: &Self) -> bool {
        self@ == other@
    }
}

impl Eq for InputId {}

/// Immutable outcome identity.
#[derive(Debug)]
pub struct OutcomeId(String);

impl View for OutcomeId {
    type V = Seq<char>;

    closed spec fn view(&self) -> Seq<char> {
        self.0@
    }
}

impl OutcomeId {
    /// Bytes every `OutcomeId` starts with (`out_`).
    pub open spec fn prefix() -> Seq<u8> {
        seq![111u8, 117u8, 116u8, 95u8]
    }

    /// Whether `chars` is the canonical form of this identifier.
    pub open spec fn is_canonical(chars: Seq<char>) -> bool {
        identifier_bytes_valid(Self::prefix(), encode_utf8(chars))
    }

    /// Type invariant: every value is in canonical form.
    #[verifier::type_invariant]
    pub open spec fn canonical(self) -> bool {
        Self::is_canonical(self@)
    }

    /// Parses and validates the canonical prefixed identifier: the prefix,
    /// a non-empty body of at most the identifier length in bytes, and only
    /// ASCII letters, digits, `_`, `-` or `.` after the prefix.
    pub fn new(value: String) -> (result: Result<Self, DomainError>)
        ensures
            result is Ok <==> Self::is_canonical(value@),
            result matches Ok(id) ==> id@ == value@,
            result matches Err(e) ==> e == DomainError::InvalidOutcomeId,
    {
        let prefix: [u8; 4] = [111, 117, 116, 95];
        assert(prefix@ =~= Self::prefix());
        if validate_identifier(&prefix, value.as_str()) {
            Ok(OutcomeId(value))
        } else {
            Err(DomainError::InvalidOutcomeId)
        }
    }

    /// Returns the canonical wire representation.
    pub fn as_str(&self) -> (s: &str)
        ensures
            s@ == self@,
    {
        self.0.as_str()
    }
}

impl Clone for OutcomeId {
    fn clone(&self) -> (copy: Self)
        ensures
            copy == *self,
    {
        proof {
            use_type_invariant(self);
        }
        OutcomeId(self.0.clone())
    }
}

impl PartialEq for OutcomeId {
    fn eq(&self, other: &Self) -> (same: bool) {
        self.0 == other.0
    }
}

impl vstd::std_specs::cmp::PartialEqSpecImpl for OutcomeId {
    open spec fn obeys_eq_spec() -> bool {
        true
    }

    open spec fn eq_spec(&self, other: &Self) -> bool {
        self@ == other@
    }
}

impl Eq for OutcomeId {}

/// Stable action and idempotency identity.
#[derive(Debug)]
pub struct ActionId(String);

impl View for ActionId {
    type V = Seq<char>;

    closed spec fn view(&self) -> Seq<char> {
        self.0@
    }
}

impl ActionId {
    /// Bytes every `ActionId` starts with (`act_`).
    pub open spec fn prefix() -> Seq<u8> {
        seq![97u8, 99u8, 116u8, 95u8]
    }

    /// Whether `chars` is the canonical form of this identifier.
    pub open spec fn is_canonical(chars: Seq<char>) -> bool {
        identifier_bytes_valid(Self::prefix(), encode_utf8(chars))
    }

    /// Type invariant: every value is in canonical form.
    #[verifier::type_invariant]
    pub open spec fn canonical(self) -> bool {
        Self::is_canonical(self@)
    }

    /// Parses and validates the canonical prefixed identifier: the prefix,
    /// a non-empty body of at most the identifier length in bytes, and only
    /// ASCII letters, digits, `_`, `-` or `.` after the prefix.
    pub fn new(value: String) -> (result: Result<Self, DomainError>)
        ensures
            result is Ok <==> Self::is_canonical(value@),
            result matches Ok(id) ==> id@ == value@,
            result matches Err(e) ==> e == DomainError::InvalidActionId,
    {
        let prefix: [u8; 4] = [97, 99, 116, 95];
        assert(prefix@ =~= Self::prefix());
        if validate_identifier(&prefix, value.as_str()) {
            Ok(ActionId(value))
        } else {
            Err(DomainError::InvalidActionId)
        }
    }

    /// Returns the canonical wire representation.
    pub fn as_str(&self) -> (s: &str)
        ensures
            s@ == self@,
    {
        self.0.as_str()
    }
}

impl Clone for ActionId {
    fn clone(&self) -> (copy: Self)
        ensures
            copy == *self,
    {
        proof {
            use_type_invariant(self);
        }
        ActionId(self.0.clone())
    }
}

impl PartialEq for ActionId {
    fn eq(&self, other: &Self) -> (same: bool) {
        self.0 == other.0
    }
}

impl vstd::std_specs::cmp::PartialEqSpecImpl for ActionId {
    open spec fn obeys_eq_spec() -> bool {
        true
    }

    open spec fn eq_spec(&self, other: &Self) -> bool {
        self@ == other@
    }
}

impl Eq for ActionId {}

/// Manual-review identity.
#[derive(Debug)]
pub struct ReviewId(String);

impl View for ReviewId {
    type V = Seq<char>;

    closed spec fn view(&self) -> Seq<char> {
        self.0@
    }
}

impl ReviewId {
    /// Bytes every `ReviewId` starts with (`rev_`).
    pub open spec fn prefix() -> Seq<u8> {
        seq![114u8, 101u8, 118u8, 95u8]
    }

    /// Whether `chars` is the canonical form of this identifier.
    pub open spec fn is_canonical(chars: Seq<char>) -> bool {
        identifier_bytes_valid(Self::prefix(), encode_utf8(chars))
    }

    /// Type invariant: every value is in canonical form.
    #[verifier::type_invariant]
    pub open spec fn canonical(self) -> bool {
        Self::is_canonical(self@)
    }

    /// Parses and validates the canonical prefixed identifier: the prefix,
    /// a non-empty body of at most the identifier length in bytes, and only
    /// ASCII letters, digits, `_`, `-` or `.` after the prefix.
    pub fn new(value: String) -> (result: Result<Self, DomainError>)
        ensures
            result is Ok <==> Self::is_canonical(value@),
            result matches Ok(id) ==> id@ == value@,
            result matches Err(e) ==> e == DomainError::InvalidReviewId,
    {
        let prefix: [u8; 4] = [114, 101, 118, 95];
        assert(prefix@ =~= Self::prefix());
        if validate_identifier(&prefix, value.as_str()) {
            Ok(ReviewId(value))
        } else {
            Err(DomainError::InvalidReviewId)
        }
    }

    /// Returns the canonical wire representation.
    pub fn as_str(&self) -> (s: &str)
        ensures
            s@ == self@,
    {
        self.0.as_str()
    }
}

impl Clone for ReviewId {
    fn clone(&self) -> (copy: Self)
        ensures
            copy == *self,
    {
        proof {
            use_type_invariant(self);
        }
        ReviewId(self.0.clone())
    }
}

impl PartialEq for ReviewId {
    fn eq(&self, other: &Self) -> (same: bool) {
        self.0 == other.0
    }
}

impl vstd::std_specs::cmp::PartialEqSpecImpl for ReviewId {
    open spec fn obeys_eq_spec() -> bool {
        true
    }

    open spec fn eq_spec(&self, other: &Self) -> bool {
        self@ == other@
    }
}

impl Eq for ReviewId {}

/// Authorized actor identity.
#[derive(Debug)]
pub struct PrincipalId(String);

impl View for PrincipalId {
    type V = Seq<char>;

    closed spec fn view(&self) -> Seq<char> {
        self.0@
    }
}

impl PrincipalId {
    /// Bytes every `PrincipalId` starts with (`pri_`).
    pub open spec fn prefix() -> Seq<u8> {
        seq![112u8, 114u8, 105u8, 95u8]
    }

    /// Whether `chars` is the canonical form of this identifier.
    pub open spec fn is_canonical(chars: Seq<char>) -> bool {
        identifier_bytes_valid(Self::prefix(), encode_utf8(chars))
    }

    /// Type invariant: every value is in canonical form.
    #[verifier::type_invariant]
    pub open spec fn canonical(self) -> bool {
        Self::is_canonical(self@)
    }

    /// Parses and validates the canonical prefixed identifier: the prefix,
    /// a non-empty body of at most the identifier length in bytes, and only
    /// ASCII letters, digits, `_`, `-` or `.` after the prefix.
    pub fn new(value: String) -> (result: Result<Self, DomainError>)
        ensures
            result is Ok <==> Self::is_canonical(value@),
            result matches Ok(id) ==> id@ == value@,
            result matches Err(e) ==> e == DomainError::InvalidPrincipalId,
    {
        let prefix: [u8; 4] = [112, 114, 105, 95];
        assert(prefix@ =~= Self::prefix());
        if validate_identifier(&prefix, value.as_str()) {
            Ok(PrincipalId(value))
        } else {
            Err(DomainError::InvalidPrincipalId)
        }
    }

    /// Returns the canonical wire representation.
    pub fn as_str(&self) -> (s: &str)
        ensures
            s@ == self@,
    {
        self.0.as_str()
    }
}

impl Clone for PrincipalId {
    fn clone(&self) -> (copy: Self)
        ensures
            copy == *self,
    {
        proof {
            use_type_invariant(self);
        }
        PrincipalId(self.0.clone())
    }
}

impl PartialEq for PrincipalId {
    fn eq(&self, other: &Self) -> (same: bool) {
        self.0 == other.0
    }
}

impl vstd::std_specs::cmp::PartialEqSpecImpl for PrincipalId {
    open spec fn obeys_eq_spec() -> bool {
        true
    }

    open spec fn eq_spec(&self, other: &Self) -> bool {
        self@ == other@
    }
}

impl Eq for PrincipalId {}

/// Canonical source-event identity.
#[derive(Debug)]
pub struct CanonicalEventId(String);

impl View for CanonicalEventId {
    type V = Seq<char>;

    closed spec fn view(&self) -> Seq<char> {
        self.0@
    }
}

impl CanonicalEventId {
    /// Bytes every `CanonicalEventId` starts with (`cev_`).
    pub open spec fn prefix() -> Seq<u8> {
        seq![99u8, 101u8, 118u8, 95u8]
    }

    /// Whether `chars` is the canonical form of this identifier.
    pub open spec fn is_canonical(chars: Seq<char>) -> bool {
        identifier_bytes_valid(Self::prefix(), encode_utf8(chars))
    }

    /// Type invariant: every value is in canonical form.
    #[verifier::type_invariant]
    pub open spec fn canonical(self) -> bool {
        Self::is_canonical(self@)
    }

    /// Parses and validates the canonical prefixed identifier: the prefix,
    /// a non-empty body of at most the identifier length in bytes, and only
    /// ASCII letters, digits, `_`, `-` or `.` after the prefix.
    pub fn new(value: String) -> (result: Result<Self, DomainError>)
        ensures
            result is Ok <==> Self::is_canonical(value@),
            result matches Ok(id) ==> id@ == value@,
            result matches Err(e) ==> e == DomainError::InvalidCanonicalEventId,
    {
        let prefix: [u8; 4] = [99, 101, 118, 95];
        assert(prefix@ =~= Self::prefix());
        if validate_identifier(&prefix, value.as_str()) {
            Ok(CanonicalEventId(value))
        } else {
            Err(DomainError::InvalidCanonicalEventId)
        }
    }

    /// Returns the canonical wire representation.
    pub fn as_str(&self) -> (s: &str)
        ensures
            s@ == self@,
    {
        self.0.as_str()
    }
}

impl Clone for CanonicalEventId {
    fn clone(&self) -> (copy: Self)
        ensures
            copy == *self,
    {
        proof {
            use_type_invariant(self);
        }
        CanonicalEventId(self.0.clone())
    }
}

impl PartialEq for CanonicalEventId {
    fn eq(&self, other: &Self) -> (same: bool) {
        self.0 == other.0
    }
}

impl vstd::std_specs::cmp::PartialEqSpecImpl for CanonicalEventId {
    open spec fn obeys_eq_spec() -> bool {
        true
    }

    open spec fn eq_spec(&self, other: &Self) -> bool {
        self@ == other@
    }
}

impl Eq for CanonicalEventId {}

/// Canonical commit identity.
#[derive(Debug)]
pub struct CanonicalCommitId(String);

impl View for CanonicalCommitId {
    type V = Seq<char>;

    closed spec fn view(&self) -> Seq<char> {
        self.0@
    }
}

impl CanonicalCommitId {
    /// Bytes every `CanonicalCommitId` starts with (`cmt_`).
    pub open spec fn prefix() -> Seq<u8> {
        seq![99u8, 109u8, 116u8, 95u8]
    }

    /// Whether `chars` is the canonical form of this identifier.
    pub open spec fn is_canonical(chars: Seq<char>) -> bool {
        identifier_bytes_valid(Self::prefix(), encode_utf8(chars))
    }

    /// Type invariant: every value is in canonical form.
    #[verifier::type_invariant]
    pub open spec fn canonical(self) -> bool {
        Self::is_canonical(self@)
    }

    /// Parses and validates the canonical prefixed identifier: the prefix,
    /// a non-empty body of at most the identifier length in bytes, and only
    /// ASCII letters, digits, `_`, `-` or `.` after the prefix.
    pub fn new(value: String) -> (result: Result<Self, DomainError>)
        ensures
            result is Ok <==> Self::is_canonical(value@),
            result matches Ok(id) ==> id@ == value@,
            result matches Err(e) ==> e == DomainError::InvalidCanonicalCommitId,
    {
        let prefix: [u8; 4] = [99, 109, 116, 95];
        assert(prefix@ =~= Self::prefix());
        if validate_identifier(&prefix, value.as_str()) {
            Ok(CanonicalCommitId(value))
        } else {
            Err(DomainError::InvalidCanonicalCommitId)
        }
    }

    /// Returns the canonical wire representation.
    pub fn as_str(&self) -> (s: &str)
        ensures
            s@ == self@,
    {
        self.0.as_str()
    }
}

impl Clone for CanonicalCommitId {
    fn clone(&self) -> (copy: Self)
        ensures
            copy == *self,
    {
        proof {
            use_type_invariant(self);
        }
        CanonicalCommitId(self.0.clone())
    }
}

impl PartialEq for CanonicalCommitId {
    fn eq(&self, other: &Self) -> (same: bool) {
        self.0 == other.0
    }
}

impl vstd::std_specs::cmp::PartialEqSpecImpl for CanonicalCommitId {
    open spec fn obeys_eq_spec() -> bool {
        true
    }

    open spec fn eq_spec(&self, other: &Self) -> bool {
        self@ == other@
    }
}

impl Eq for CanonicalCommitId {}

/// Canonical resource-scope identity.
#[derive(Debug)]
pub struct ResourceId(String);

impl View for ResourceId {
    type V = Seq<char>;

    closed spec fn view(&self) -> Seq<char> {
        self.0@
    }
}

impl ResourceId {
    /// Bytes every `ResourceId` starts with (`res_`).
    pub open spec fn prefix() -> Seq<u8> {
        seq![114u8, 101u8, 115u8, 95u8]
    }

    /// Whether `chars` is the canonical form of this identifier.
    pub open spec fn is_canonical(chars: Seq<char>) -> bool {
        identifier_bytes_valid(Self::prefix(), encode_utf8(chars))
    }

    /// Type invariant: every value is in canonical form.
    #[verifier::type_invariant]
    pub open spec fn canonical(self) -> bool {
        Self::is_canonical(self@)
    }

    /// Parses and validates the canonical prefixed identifier: the prefix,
    /// a non-empty body of at most the identifier length in bytes, and only
    /// ASCII letters, digits, `_`, `-` or `.` after the prefix.
    pub fn new(value: String) -> (result: Result<Self, DomainError>)
        ensures
            result is Ok <==> Self::is_canonical(value@),
            result matches Ok(id) ==> id@ == value@,
            result matches Err(e) ==> e == DomainError::InvalidResourceId,
    {
        let prefix: [u8; 4] = [114, 101, 115, 95];
        assert(prefix@ =~= Self::prefix());
        if validate_identifier(&prefix, value.as_str()) {
            Ok(ResourceId(value))
        } else {
            Err(DomainError::InvalidResourceId)
        }
    }

    /// Returns the canonical wire representation.
    pub fn as_str(&self) -> (s: &str)
        ensures
            s@ == self@,
    {
        self.0.as_str()
    }
}

impl Clone for ResourceId {
    fn clone(&self) -> (copy: Self)
        ensures
            copy == *self,
    {
        proof {
            use_type_invariant(self);
        }
        ResourceId(self.0.clone())
    }
}

impl PartialEq for ResourceId {
    fn eq(&self, other: &Self) -> (same: bool) {
        self.0 == other.0
    }
}

impl vstd::std_specs::cmp::PartialEqSpecImpl for ResourceId {
    open spec fn obeys_eq_spec() -> bool {
        true
    }

    open spec fn eq_spec(&self, other: &Self) -> bool {
        self@ == other@
    }
}

impl Eq for ResourceId {}

/// Registered canonical operation identity.
#[derive(Debug)]
pub struct OperationId(String);

impl View for OperationId {
    type V = Seq<char>;

    closed spec fn view(&self) -> Seq<char> {
        self.0@
    }
}

impl OperationId {
    /// Bytes every `OperationId` starts with (`op_`).
    pub open spec fn prefix() -> Seq<u8> {
        seq![111u8, 112u8, 95u8]
    }

    /// Whether `chars` is the canonical form of this identifier.
    pub open spec fn is_canonical(chars: Seq<char>) -> bool {
        identifier_bytes_valid(Self::prefix(), encode_utf8(chars))
    }

    /// Type invariant: every value is in canonical form.
    #[verifier::type_invariant]
    pub open spec fn canonical(self) -> bool {
        Self::is_canonical(self@)
    }

    /// Parses and validates the canonical prefixed identifier: the prefix,
    /// a non-empty body of at most the identifier length in bytes, and only
    /// ASCII letters, digits, `_`, `-` or `.` after the prefix.
    pub fn new(value: String) -> (result: Result<Self, DomainError>)
        ensures
            result is Ok <==> Self::is_canonical(value@),
            result matches Ok(id) ==> id@ == value@,
            result matches Err(e) ==> e == DomainError::InvalidOperationId,
    {
        let prefix: [u8; 3] = [111, 112, 95];
        assert(prefix@ =~= Self::prefix());
        if validate_identifier(&prefix, value.as_str()) {
            Ok(OperationId(value))
        } else {
            Err(DomainError::InvalidOperationId)
        }
    }

    /// Returns the canonical wire representation.
    pub fn as_str(&self) -> (s: &str)
        ensures
            s@ == self@,
    {
        self.0.as_str()
    }
}

impl Clone for OperationId {
    fn clone(&self) -> (copy: Self)
        ensures
            copy == *self,
    {
        proof {
            use_type_invariant(self);
        }
        OperationId(self.0.clone())
    }
}

impl PartialEq for OperationId {
    fn eq(&self, other: &Self) -> (same: bool) {
        self.0 == other.0
    }
}

impl vstd::std_specs::cmp::PartialEqSpecImpl for OperationId {
    open spec fn obeys_eq_spec() -> bool {
        true
    }

    open spec fn eq_spec(&self, other: &Self) -> bool {
        self@ == other@
    }
}

impl Eq for OperationId {}

/// External executor or remote-system reference identity.
#[derive(Debug)]
pub struct ExternalReferenceId(String);

impl View for ExternalReferenceId {
    type V = Seq<char>;

    closed spec fn view(&self) -> Seq<char> {
        self.0@
    }
}

impl ExternalReferenceId {
    /// Bytes every `ExternalReferenceId` starts with (`ext_`).
    pub open spec fn prefix() -> Seq<u8> {
        seq![101u8, 120u8, 116u8, 95u8]
    }

    /// Whether `chars` is the canonical form of this identifier.
    pub open spec fn is_canonical(chars: Seq<char>) -> bool {
        identifier_bytes_valid(Self::prefix(), encode_utf8(chars))
    }

    /// Type invariant: every value is in canonical form.
    #[verifier::type_invariant]
    pub open spec fn canonical(self) -> bool {
        Self::is_canonical(self@)
    }

    /// Parses and validates the canonical prefixed identifier: the prefix,
    /// a non-empty body of at most the identifier length in bytes, and only
    /// ASCII letters, digits, `_`, `-` or `.` after the prefix.
    pub fn new(value: String) -> (result: Result<Self, DomainError>)
        ensures
            result is Ok <==> Self::is_canonical(value@),
            result matches Ok(id) ==> id@ == value@,
            result matches Err(e) ==> e == DomainError::InvalidExternalReferenceId,
    {
        let prefix: [u8; 4] = [101, 120, 116, 95];
        assert(prefix@ =~= Self::prefix());
        if validate_identifier(&prefix, value.as_str()) {
            Ok(ExternalReferenceId(value))
        } else {
            Err(DomainError::InvalidExternalReferenceId)
        }
    }

    /// Returns the canonical wire representation.
    pub fn as_str(&self) -> (s: &str)
        ensures
            s@ == self@,
    {
        self.0.as_str()
    }
}

impl Clone for ExternalReferenceId {
    fn clone(&self) -> (copy: Self)
        ensures
            copy == *self,
    {
        proof {
            use_type_invariant(self);
        }
        ExternalReferenceId(self.0.clone())
    }
}

impl PartialEq for ExternalReferenceId {
    fn eq(&self, other: &Self) -> (same: bool) {
        self.0 == other.0
    }
}

impl vstd::std_specs::cmp::PartialEqSpecImpl for ExternalReferenceId {
    open spec fn obeys_eq_spec() -> bool {
        true
    }

    open spec fn eq_spec(&self, other: &Self) -> bool {
        self@ == other@
    }
}

impl Eq for ExternalReferenceId {}

/// Explicit definition migration identity.
#[derive(Debug)]
pub struct MigrationId(String);

impl View for MigrationId {
    type V = Seq<char>;

    closed spec fn view(&self) -> Seq<char> {
        self.0@
    }
}

impl MigrationId {
    /// Bytes every `MigrationId` starts with (`mig_`).
    pub open spec fn prefix() -> Seq<u8> {
        seq![109u8, 105u8, 103u8, 95u8]
    }

    /// Whether `chars` is the canonical form of this identifier.
    pub open spec fn is_canonical(chars: Seq<char>) -> bool {
        identifier_bytes_valid(Self::prefix(), encode_utf8(chars))
    }

    /// Type invariant: every value is in canonical form.
    #[verifier::type_invariant]
    pub open spec fn canonical(self) -> bool {
        Self::is_canonical(self@)
    }

    /// Parses and validates the canonical prefixed identifier: the prefix,
    /// a non-empty body of at most the identifier length in bytes, and only
    /// ASCII letters, digits, `_`, `-` or `.` after the prefix.
    pub fn new(value: String) -> (result: Result<Self, DomainError>)
        ensures
            result is Ok <==> Self::is_canonical(value@),
            result matches Ok(id) ==> id@ == value@,
            result matches Err(e) ==> e == DomainError::InvalidMigrationId,
    {
        let prefix: [u8; 4] = [109, 105, 103, 95];
        assert(prefix@ =~= Self::prefix());
        if validate_identifier(&prefix, value.as_str()) {
            Ok(MigrationId(value))
        } else {
            Err(DomainError::InvalidMigrationId)
        }
    }

    /// Returns the canonical wire representation.
    pub fn as_str(&self) -> (s: &str)
        ensures
            s@ == self@,
    {
        self.0.as_str()
    }
}

impl Clone for MigrationId {
    fn clone(&self) -> (copy: Self)
        ensures
            copy == *self,
    {
        proof {
            use_type_invariant(self);
        }
        MigrationId(self.0.clone())
    }
}

impl PartialEq for MigrationId {
    fn eq(&self, other: &Self) -> (same: bool) {
        self.0 == other.0
    }
}

impl vstd::std_specs::cmp::PartialEqSpecImpl for MigrationId {
    open spec fn obeys_eq_spec() -> bool {
        true
    }

    open spec fn eq_spec(&self, other: &Self) -> bool {
        self@ == other@
    }
}

impl Eq for MigrationId {}

} // verus!
