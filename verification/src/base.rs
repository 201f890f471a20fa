//! Fundamental value types of the firmware interface.
//!
//! Wherever possible the firmware's primitives map to native Rust types:
//! fixed-size integers are `u8`..`u64` / `i8`..`i64`, and the native-width
//! `UINTN` is `usize`. Object handles, event handles, and the entry points of
//! firmware routines are opaque machine addresses; this module carries them
//! verbatim and never dereferences them, so they appear here as pointer-sized
//! integers.
//!
//! The two types with behaviour of their own are [`Status`], a tagged
//! machine word whose two highest bits classify an outcome, and [`Guid`], a
//! 128-bit identifier stored as its canonical big-endian byte sequence.

use vstd::prelude::*;

verus! {

/// Boolean type of the interface: a 1-byte value that is either `False` or
/// `True`. The Rust `bool` has no stable interface representation, so the
/// firmware's boolean is its own type, convertible to and from `bool`.
#[derive(Copy, Clone, Debug)]
pub enum Boolean {
    False,
    True,
}

impl View for Boolean {
    type V = bool;

    open spec fn view(&self) -> bool {
        *self matches Boolean::True
    }
}

impl PartialEq for Boolean {
    fn eq(&self, other: &Boolean) -> (r: bool) {
        match (self, other) {
            (Boolean::False, Boolean::False) => true,
            (Boolean::True, Boolean::True) => true,
            _ => false,
        }
    }
}

impl vstd::std_specs::cmp::PartialEqSpecImpl for Boolean {
    open spec fn obeys_eq_spec() -> bool {
        true
    }

    open spec fn eq_spec(&self, other: &Boolean) -> bool {
        *self == *other
    }
}

impl PartialEq<bool> for Boolean {
    fn eq(&self, other: &bool) -> (r: bool) {
        match self {
            Boolean::False => !*other,
            Boolean::True => *other,
        }
    }
}

impl vstd::std_specs::cmp::PartialEqSpecImpl<bool> for Boolean {
    open spec fn obeys_eq_spec() -> bool {
        true
    }

    open spec fn eq_spec(&self, other: &bool) -> bool {
        self@ == *other
    }
}

impl From<bool> for Boolean {
    fn from(b: bool) -> (r: Boolean) {
        if b {
            Boolean::True
        } else {
            Boolean::False
        }
    }
}

impl vstd::std_specs::convert::FromSpecImpl<bool> for Boolean {
    open spec fn obeys_from_spec() -> bool {
        true
    }

    open spec fn from_spec(v: bool) -> Boolean {
        if v {
            Boolean::True
        } else {
            Boolean::False
        }
    }
}

impl From<Boolean> for bool {
    fn from(b: Boolean) -> (r: bool) {
        match b {
            Boolean::False => false,
            Boolean::True => true,
        }
    }
}

impl vstd::std_specs::convert::FromSpecImpl<Boolean> for bool {
    open spec fn obeys_from_spec() -> bool {
        true
    }

    open spec fn from_spec(v: Boolean) -> bool {
        v@
    }
}

/// Single-byte character: ASCII-compatible, ISO-Latin-1 encoded.
#[derive(Copy, Clone, Debug)]
pub struct Char8(u8);

/// Dual-byte character: UCS-2 encoded.
#[derive(Copy, Clone, Debug, Default)]
pub struct Char16(u16);

/// Reason a Unicode character cannot be represented as a [`Char8`] or
/// [`Char16`].
#[derive(Copy, Clone, Debug, PartialEq, Eq, Structural)]
pub enum TryFromCharError {
    /// The code point is a UTF-16 surrogate half.
    Surrogate,
    /// The code point lies in the private-use area.
    Private,
    /// The code point is too large for the character type.
    OutOfRange,
}

impl View for Char8 {
    type V = u8;

    closed spec fn view(&self) -> u8 {
        self.0
    }
}

impl Char8 {
    /// Converts a character to a `Char8`: any code point up to `0xff` fits,
    /// corresponding to the ISO-Latin-1 encoding.
    pub fn try_from(c: char) -> (r: Result<Char8, TryFromCharError>)
        ensures
            c as u32 <= 0xff ==> (r matches Ok(ch) && ch@ == c as u32),
            c as u32 > 0xff ==> (r matches Err(e) && e == TryFromCharError::OutOfRange),
    {
        let v: u32 = c as u32;
        if v <= 0xff {
            Ok(Char8(v as u8))
        } else {
            Err(TryFromCharError::OutOfRange)
        }
    }

    /// The stored character code.
    pub fn value(&self) -> (v: u8)
        ensures
            v == self@,
    {
        self.0
    }
}

impl View for Char16 {
    type V = u16;

    closed spec fn view(&self) -> u16 {
        self.0
    }
}

impl Char16 {
    /// Converts a character to a `Char16`: any code point of the basic
    /// multilingual plane fits, except surrogate halves and the private-use
    /// area.
    pub fn try_from(c: char) -> (r: Result<Char16, TryFromCharError>)
        ensures
            c as u32 <= 0xd7ff ==> (r matches Ok(ch) && ch@ == c as u32),
            0xd800 <= c as u32 <= 0xdfff ==> (r matches Err(e) && e
                == TryFromCharError::Surrogate),
            0xe000 <= c as u32 <= 0xf8ff ==> (r matches Err(e) && e == TryFromCharError::Private),
            0xf900 <= c as u32 <= 0xffff ==> (r matches Ok(ch) && ch@ == c as u32),
            c as u32 > 0xffff ==> (r matches Err(e) && e == TryFromCharError::OutOfRange),
    {
        let v: u32 = c as u32;
        if v <= 0xd7ff {
            Ok(Char16(v as u16))
        } else if v <= 0xdfff {
            Err(TryFromCharError::Surrogate)
        } else if v <= 0xf8ff {
            Err(TryFromCharError::Private)
        } else if v <= 0xffff {
            Ok(Char16(v as u16))
        } else {
            Err(TryFromCharError::OutOfRange)
        }
    }

    /// The stored character code.
    pub fn value(&self) -> (v: u16)
        ensures
            v == self@,
    {
        self.0
    }
}

/// True exactly when the two highest bits of `v` are `10`: the word is an
/// error code.
pub open spec fn spec_is_error(v: usize) -> bool {
    v & Status::MASK == Status::ERROR_MASK
}

/// True exactly when `v` is nonzero and its two highest bits are `00`: the
/// word is a warning code.
pub open spec fn spec_is_warning(v: usize) -> bool {
    v != 0 && v & Status::MASK == Status::WARNING_MASK
}

/// True exactly when `v` is zero: the word reports plain success.
pub open spec fn spec_is_success(v: usize) -> bool {
    v == 0
}

/// Status code: a machine word whose two highest bits classify the outcome of
/// a firmware call, while the remaining bits carry the externally defined
/// code. The word is wrapped verbatim; no code is ever synthesized or
/// remapped here, so callers can always recover the exact value.
#[derive(Copy, Clone, Debug)]
pub struct Status(usize);

impl View for Status {
    type V = usize;

    closed spec fn view(&self) -> usize {
        self.0
    }
}

impl Status {
    /// The two highest bits of the word, which encode its class.
    pub const MASK: usize = !(!0usize >> 2);

    /// Class pattern of an error: the highest bit set, the next one clear.
    pub const ERROR_MASK: usize = !(!0usize >> 1);

    /// Class pattern of a warning: both of the highest bits clear (a zero
    /// word is plain success, not a warning).
    pub const WARNING_MASK: usize = 0;

    /// Success code; its value is guaranteed to be zero.
    pub const SUCCESS: usize = 0;

    // The predefined error codes. Each is the externally fixed literal with
    // the error class bit set; the values are part of the interface contract
    // and must never be renumbered.
    pub const LOAD_ERROR: usize = 1 | Status::ERROR_MASK;

    pub const INVALID_PARAMETER: usize = 2 | Status::ERROR_MASK;

    pub const UNSUPPORTED: usize = 3 | Status::ERROR_MASK;

    pub const BAD_BUFFER_SIZE: usize = 4 | Status::ERROR_MASK;

    pub const BUFFER_TOO_SMALL: usize = 5 | Status::ERROR_MASK;

    pub const NOT_READY: usize = 6 | Status::ERROR_MASK;

    pub const DEVICE_ERROR: usize = 7 | Status::ERROR_MASK;

    pub const WRITE_PROTECTED: usize = 8 | Status::ERROR_MASK;

    pub const OUT_OF_RESOURCES: usize = 9 | Status::ERROR_MASK;

    pub const VOLUME_CORRUPTED: usize = 10 | Status::ERROR_MASK;

    pub const VOLUME_FULL: usize = 11 | Status::ERROR_MASK;

    pub const NO_MEDIA: usize = 12 | Status::ERROR_MASK;

    pub const MEDIA_CHANGED: usize = 13 | Status::ERROR_MASK;

    pub const NOT_FOUND: usize = 14 | Status::ERROR_MASK;

    pub const ACCESS_DENIED: usize = 15 | Status::ERROR_MASK;

    pub const NO_RESPONSE: usize = 16 | Status::ERROR_MASK;

    pub const NO_MAPPING: usize = 17 | Status::ERROR_MASK;

    pub const TIMEOUT: usize = 18 | Status::ERROR_MASK;

    pub const NOT_STARTED: usize = 19 | Status::ERROR_MASK;

    pub const ALREADY_STARTED: usize = 20 | Status::ERROR_MASK;

    pub const ABORTED: usize = 21 | Status::ERROR_MASK;

    pub const ICMP_ERROR: usize = 22 | Status::ERROR_MASK;

    pub const TFTP_ERROR: usize = 23 | Status::ERROR_MASK;

    pub const PROTOCOL_ERROR: usize = 24 | Status::ERROR_MASK;

    pub const INCOMPATIBLE_VERSION: usize = 25 | Status::ERROR_MASK;

    pub const SECURITY_VIOLATION: usize = 26 | Status::ERROR_MASK;

    pub const CRC_ERROR: usize = 27 | Status::ERROR_MASK;

    pub const END_OF_MEDIA: usize = 28 | Status::ERROR_MASK;

    pub const END_OF_FILE: usize = 31 | Status::ERROR_MASK;

    pub const INVALID_LANGUAGE: usize = 32 | Status::ERROR_MASK;

    pub const COMPROMISED_DATA: usize = 33 | Status::ERROR_MASK;

    pub const IP_ADDRESS_CONFLICT: usize = 34 | Status::ERROR_MASK;

    pub const HTTP_ERROR: usize = 35 | Status::ERROR_MASK;

    // The predefined warning codes: nonzero literals in the warning class.
    pub const WARN_UNKNOWN_GLYPH: usize = 1 | Status::WARNING_MASK;

    pub const WARN_DELETE_FAILURE: usize = 2 | Status::WARNING_MASK;

    pub const WARN_WRITE_FAILURE: usize = 3 | Status::WARNING_MASK;

    pub const WARN_BUFFER_TOO_SMALL: usize = 4 | Status::WARNING_MASK;

    pub const WARN_STALE_DATA: usize = 5 | Status::WARNING_MASK;

    pub const WARN_FILE_SYSTEM: usize = 6 | Status::WARNING_MASK;

    pub const WARN_RESET_REQUIRED: usize = 7 | Status::WARNING_MASK;

    /// Wraps the literal value of a status code. No validation happens: the
    /// space of legal codes is defined externally and changes between
    /// interface revisions.
    pub fn from_usize(v: usize) -> (s: Status)
        ensures
            s@ == v,
    {
        Status(v)
    }

    /// The raw word, exactly as it was wrapped.
    pub fn value(&self) -> (v: usize)
        ensures
            v == self@,
    {
        self.0
    }

    /// The class bits of the word.
    fn mask(&self) -> (m: usize)
        ensures
            m == self@ & Status::MASK,
    {
        self.value() & Status::MASK
    }

    /// True if the code is an error. Output parameters of the call that
    /// produced an error code hold undefined content and must not be
    /// trusted.
    pub fn is_error(&self) -> (r: bool)
        ensures
            r == spec_is_error(self@),
    {
        self.mask() == Status::ERROR_MASK
    }

    /// True if the code is a warning. A warning is to be treated as success
    /// (its output parameters are valid) but may indicate data loss or a
    /// device problem.
    pub fn is_warning(&self) -> (r: bool)
        ensures
            r == spec_is_warning(self@),
    {
        self.value() != 0 && self.mask() == Status::WARNING_MASK
    }

    /// True if the code is plain success, that is, exactly zero.
    pub fn is_success(&self) -> (r: bool)
        ensures
            r == spec_is_success(self@),
    {
        self.value() == 0
    }
}

/// Object handle: access to an opaque object owned by the firmware. Handles
/// are untyped by default; the driver model applies meaning to them. The
/// address is carried verbatim and never dereferenced here.
pub type Handle = usize;

/// Event handle: a hook into the main loop of the firmware environment,
/// carried verbatim like an object handle.
pub type Event = usize;

/// Logical block address on a block device: a simple 64-bit integer.
pub type Lba = u64;

/// Task priority level: the higher the number, the higher the priority of
/// the task. Its range is restricted by the task management services.
pub type Tpl = usize;

/// Physical memory address: a simple 64-bit integer.
pub type PhysicalAddress = u64;

/// Virtual memory address: a simple 64-bit integer.
pub type VirtualAddress = u64;

/// Entry point of a firmware service routine: the machine address of code
/// that is invoked through the firmware's calling convention. The address is
/// recorded verbatim; performing such a call is outside the scope of this
/// library.
pub type ServiceRoutine = usize;

/// Address of firmware-owned data: a pointer-sized integer carried verbatim
/// across the interface boundary and never dereferenced here.
pub type DataAddress = usize;

/// Entry point of a loaded image, invoked with the image handle and the
/// address of the system table.
pub type ImageEntryPoint = ServiceRoutine;

/// Media access control address, padded to the 32 bytes the interface
/// reserves for it.
#[derive(Copy, Clone, Debug)]
pub struct MacAddress {
    pub addr: [u8; 32],
}

/// IPv4 address, in network byte order.
#[derive(Copy, Clone, Debug)]
pub struct Ipv4Address {
    pub addr: [u8; 4],
}

/// IPv6 address, in network byte order.
#[derive(Copy, Clone, Debug)]
pub struct Ipv6Address {
    pub addr: [u8; 16],
}

/// Either an IPv4 or an IPv6 address, stored in the 16 network-byte-order
/// bytes the interface reserves for the larger of the two; an IPv4 address
/// occupies the first four bytes.
#[derive(Copy, Clone, Debug)]
pub struct IpAddress {
    pub addr: [u8; 16],
}

/// An error code is recognized purely by the two highest bits of the word
/// holding the pattern `10`, at every machine word width: the highest bit is
/// the error flag and the bit below it is reserved clear.
pub proof fn lemma_error_iff_top_bits(v: usize)
    ensures
        spec_is_error(v) <==> v >> ((usize::BITS - 2) as u32) == 2,
{
    assert((v & !(!0usize >> 2) == !(!0usize >> 1)) <==> v >> ((usize::BITS - 2) as u32) == 2)
        by (bit_vector);
}

/// A warning code is recognized purely by the word being nonzero while its
/// two highest bits are both clear, at every machine word width.
pub proof fn lemma_warning_iff_top_bits(v: usize)
    ensures
        spec_is_warning(v) <==> (v != 0 && v >> ((usize::BITS - 2) as u32) == 0),
{
    assert((v & !(!0usize >> 2) == 0) <==> v >> ((usize::BITS - 2) as u32) == 0) by (bit_vector);
}

/// The highest bit of the word is the error flag: a word with that bit
/// clear is never classified as an error, at every machine word width.
pub proof fn lemma_no_error_without_top_bit(v: usize)
    requires
        v >> ((usize::BITS - 1) as u32) == 0,
    ensures
        !spec_is_error(v),
{
    assert(v >> ((usize::BITS - 1) as u32) == 0 ==> v & !(!0usize >> 2) != !(!0usize >> 1))
        by (bit_vector);
}

/// The three classes exclude one another: a zero word is neither an error
/// nor a warning, and no word is both an error and a warning.
pub proof fn lemma_status_classes_exclusive(v: usize)
    ensures
        spec_is_success(v) ==> !spec_is_error(v) && !spec_is_warning(v),
        !(spec_is_error(v) && spec_is_warning(v)),
{
    assert(0usize & !(!0usize >> 2) != !(!0usize >> 1)) by (bit_vector);
    assert(!(v & !(!0usize >> 2) == !(!0usize >> 1) && v & !(!0usize >> 2) == 0)) by (bit_vector);
}

/// The canonical 16-byte form of an identifier: each multi-byte field
/// big-endian encoded, the single bytes and the node bytes verbatim, laid
/// out field after field.
pub open spec fn guid_encode(
    time_low: u32,
    time_mid: u16,
    time_hi_and_version: u16,
    clk_seq_hi_res: u8,
    clk_seq_low: u8,
    node: Seq<u8>,
) -> Seq<u8> {
    seq![
        (time_low >> 24) as u8,
        (time_low >> 16) as u8,
        (time_low >> 8) as u8,
        time_low as u8,
        (time_mid >> 8) as u8,
        time_mid as u8,
        (time_hi_and_version >> 8) as u8,
        time_hi_and_version as u8,
        clk_seq_hi_res,
        clk_seq_low,
        node[0],
        node[1],
        node[2],
        node[3],
        node[4],
        node[5],
    ]
}

/// `x` with the order of its four bytes inverted.
pub open spec fn byte_swapped_u32(x: u32) -> u32 {
    ((x & 0xff) << 24) | (((x >> 8) & 0xff) << 16) | (((x >> 16) & 0xff) << 8) | (x >> 24)
}

/// `x` with its two bytes exchanged.
pub open spec fn byte_swapped_u16(x: u16) -> u16 {
    ((x & 0xff) << 8) | (x >> 8)
}

/// Globally unique identifier: 128 bits in the layout of RFC 4122, stored as
/// the canonical big-endian (network byte order) sequence of its 16 bytes,
/// independent of the machine's own byte order. The storage is packed into
/// two 64-bit words, which also gives the value the 8-byte alignment the
/// interface demands; the view of a `Guid` is its byte sequence.
#[derive(Copy, Clone, Debug, PartialEq, Eq, Structural)]
pub struct Guid {
    hi: u64,
    lo: u64,
}

impl View for Guid {
    type V = Seq<u8>;

    closed spec fn view(&self) -> Seq<u8> {
        seq![
            (self.hi >> 56) as u8,
            (self.hi >> 48) as u8,
            (self.hi >> 40) as u8,
            (self.hi >> 32) as u8,
            (self.hi >> 24) as u8,
            (self.hi >> 16) as u8,
            (self.hi >> 8) as u8,
            self.hi as u8,
            (self.lo >> 56) as u8,
            (self.lo >> 48) as u8,
            (self.lo >> 40) as u8,
            (self.lo >> 32) as u8,
            (self.lo >> 24) as u8,
            (self.lo >> 16) as u8,
            (self.lo >> 8) as u8,
            self.lo as u8,
        ]
    }
}

impl Guid {
    /// Builds an identifier from its individual fields given in the
    /// machine's native integer representation: every multi-byte field is
    /// converted to big-endian for storage, the single bytes and the node
    /// bytes are stored unchanged.
    pub fn from_native(
        time_low: u32,
        time_mid: u16,
        time_hi_and_version: u16,
        clk_seq_hi_res: u8,
        clk_seq_low: u8,
        node: &[u8; 6],
    ) -> (g: Guid)
        ensures
            g@ == guid_encode(
                time_low,
                time_mid,
                time_hi_and_version,
                clk_seq_hi_res,
                clk_seq_low,
                node@,
            ),
    {
        let n0 = node[0];
        let n1 = node[1];
        let n2 = node[2];
        let n3 = node[3];
        let n4 = node[4];
        let n5 = node[5];
        let hi: u64 = ((time_low as u64) << 32) | ((time_mid as u64) << 16) | (
        time_hi_and_version as u64);
        let lo: u64 = ((clk_seq_hi_res as u64) << 56) | ((clk_seq_low as u64) << 48) | ((
        n0 as u64) << 40) | ((n1 as u64) << 32) | ((n2 as u64) << 24) | ((n3 as u64) << 16) | ((
        n4 as u64) << 8) | (n5 as u64);
        let g = Guid { hi, lo };
        proof {
            let tl = time_low;
            let tm = time_mid;
            let thv = time_hi_and_version;
            assert((hi >> 56) as u8 == (tl >> 24) as u8 && (hi >> 48) as u8 == (tl >> 16) as u8
                && (hi >> 40) as u8 == (tl >> 8) as u8 && (hi >> 32) as u8 == tl as u8 && (hi
                >> 24) as u8 == (tm >> 8) as u8 && (hi >> 16) as u8 == tm as u8 && (hi >> 8) as u8
                == (thv >> 8) as u8 && hi as u8 == thv as u8) by (bit_vector)
                requires
                    hi == ((tl as u64) << 32) | ((tm as u64) << 16) | (thv as u64),
            ;
            let csh = clk_seq_hi_res;
            let csl = clk_seq_low;
            assert((lo >> 56) as u8 == csh && (lo >> 48) as u8 == csl && (lo >> 40) as u8 == n0 && (
            lo >> 32) as u8 == n1 && (lo >> 24) as u8 == n2 && (lo >> 16) as u8 == n3 && (lo
                >> 8) as u8 == n4 && lo as u8 == n5) by (bit_vector)
                requires
                    lo == ((csh as u64) << 56) | ((csl as u64) << 48) | ((n0 as u64) << 40) | ((
                    n1 as u64) << 32) | ((n2 as u64) << 24) | ((n3 as u64) << 16) | ((n4 as u64)
                        << 8) | (n5 as u64),
            ;
            assert(g@ =~= guid_encode(tl, tm, thv, csh, csl, node@));
        }
        g
    }

    /// Builds an identifier from the integer literals exactly as the
    /// governing document prints them. Those literals are printed
    /// pre-swapped for little-endian machines, so every multi-byte field is
    /// byte-swapped first and then stored through the same big-endian
    /// conversion as [`Guid::from_native`].
    pub fn from_spec(
        time_low: u32,
        time_mid: u16,
        time_hi_and_version: u16,
        clk_seq_hi_res: u8,
        clk_seq_low: u8,
        node: &[u8; 6],
    ) -> (g: Guid)
        ensures
            g@ == guid_encode(
                byte_swapped_u32(time_low),
                byte_swapped_u16(time_mid),
                byte_swapped_u16(time_hi_and_version),
                clk_seq_hi_res,
                clk_seq_low,
                node@,
            ),
    {
        Guid::from_native(
            swap_bytes_u32(time_low),
            swap_bytes_u16(time_mid),
            swap_bytes_u16(time_hi_and_version),
            clk_seq_hi_res,
            clk_seq_low,
            node,
        )
    }

    /// The identifier as its raw byte array: the stored big-endian bytes in
    /// order, with no conversion.
    pub fn as_bytes(&self) -> (r: [u8; 16])
        ensures
            r@ == self@,
    {
        let r: [u8; 16] = [
            (self.hi >> 56) as u8,
            (self.hi >> 48) as u8,
            (self.hi >> 40) as u8,
            (self.hi >> 32) as u8,
            (self.hi >> 24) as u8,
            (self.hi >> 16) as u8,
            (self.hi >> 8) as u8,
            self.hi as u8,
            (self.lo >> 56) as u8,
            (self.lo >> 48) as u8,
            (self.lo >> 40) as u8,
            (self.lo >> 32) as u8,
            (self.lo >> 24) as u8,
            (self.lo >> 16) as u8,
            (self.lo >> 8) as u8,
            self.lo as u8,
        ];
        proof {
            assert(r@ =~= self@);
        }
        r
    }
}

/// Inverts the order of the four bytes of `x`.
fn swap_bytes_u32(x: u32) -> (r: u32)
    ensures
        r == byte_swapped_u32(x),
{
    ((x & 0xff) << 24) | (((x >> 8) & 0xff) << 16) | (((x >> 16) & 0xff) << 8) | (x >> 24)
}

/// Exchanges the two bytes of `x`.
fn swap_bytes_u16(x: u16) -> (r: u16)
    ensures
        r == byte_swapped_u16(x),
{
    ((x & 0xff) << 8) | (x >> 8)
}

/// Swapping the bytes of a field twice gives the field back.
pub proof fn lemma_byte_swap_involution(x32: u32, x16: u16)
    ensures
        byte_swapped_u32(byte_swapped_u32(x32)) == x32,
        byte_swapped_u16(byte_swapped_u16(x16)) == x16,
{
    assert({
        let s32 = ((x32 & 0xff) << 24) | (((x32 >> 8) & 0xff) << 16) | (((x32 >> 16) & 0xff) << 8)
            | (x32 >> 24);
        let s16 = ((x16 & 0xff) << 8) | (x16 >> 8);
        (((s32 & 0xff) << 24) | (((s32 >> 8) & 0xff) << 16) | (((s32 >> 16) & 0xff) << 8) | (s32
            >> 24) == x32) && (((s16 & 0xff) << 8) | (s16 >> 8) == x16)
    }) by (bit_vector);
}

/// Cross-convention equality: the document-literal construction applied to
/// the byte-swapped rendering of an identifier's fields stores exactly the
/// bytes that the native construction stores for the unswapped fields.
pub proof fn lemma_cross_convention_equality(
    time_low: u32,
    time_mid: u16,
    time_hi_and_version: u16,
    clk_seq_hi_res: u8,
    clk_seq_low: u8,
    node: Seq<u8>,
)
    ensures
        guid_encode(
            byte_swapped_u32(byte_swapped_u32(time_low)),
            byte_swapped_u16(byte_swapped_u16(time_mid)),
            byte_swapped_u16(byte_swapped_u16(time_hi_and_version)),
            clk_seq_hi_res,
            clk_seq_low,
            node,
        ) == guid_encode(
            time_low,
            time_mid,
            time_hi_and_version,
            clk_seq_hi_res,
            clk_seq_low,
            node,
        ),
{
    lemma_byte_swap_involution(time_low, time_mid);
    lemma_byte_swap_involution(0, time_hi_and_version);
}

/// Round trip: the canonical byte form big-endian encodes every multi-byte
/// field, so the fields can be read back from their bytes, and the node
/// bytes are stored verbatim.
pub proof fn lemma_guid_encode_recovers_fields(
    time_low: u32,
    time_mid: u16,
    time_hi_and_version: u16,
    clk_seq_hi_res: u8,
    clk_seq_low: u8,
    node: Seq<u8>,
)
    requires
        node.len() == 6,
    ensures
        ({
            let b = guid_encode(
                time_low,
                time_mid,
                time_hi_and_version,
                clk_seq_hi_res,
                clk_seq_low,
                node,
            );
            &&& b.len() == 16
            &&& ((b[0] as u32) << 24) | ((b[1] as u32) << 16) | ((b[2] as u32) << 8) | (
            b[3] as u32) == time_low
            &&& ((b[4] as u16) << 8) | (b[5] as u16) == time_mid
            &&& ((b[6] as u16) << 8) | (b[7] as u16) == time_hi_and_version
            &&& b[8] == clk_seq_hi_res
            &&& b[9] == clk_seq_low
            &&& b.subrange(10, 16) =~= node
        }),
{
    let tl = time_low;
    let tm = time_mid;
    let thv = time_hi_and_version;
    assert(((((tl >> 24) as u8) as u32) << 24) | ((((tl >> 16) as u8) as u32) << 16) | ((((tl
        >> 8) as u8) as u32) << 8) | ((tl as u8) as u32) == tl) by (bit_vector);
    assert((((((tm >> 8) as u8) as u16) << 8) | ((tm as u8) as u16) == tm) && (((((thv
        >> 8) as u8) as u16) << 8) | ((thv as u8) as u16) == thv)) by (bit_vector);
}

} // verus!
