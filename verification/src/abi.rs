//! The call-argument record convention of the plugin ABI.
//!
//! Every entry point takes a record that begins with a declared byte-size
//! field and a forward-compatibility extension pointer (always null in this
//! adapter). The declared size must equal the record's actual extent at the
//! header version the adapter was built against: the header fixes it as the
//! offset of the last field plus that field's size, under the usual C layout
//! rules. The layout computation is verified here, and the declared sizes the
//! adapter sends are proved to match it.

use vstd::prelude::*;

verus! {

/// The two-part ABI version this adapter was built against.
pub const PJRT_API_MAJOR: i32 = 0;

pub const PJRT_API_MINOR: i32 = 68;

/// One field of a C record: its byte size and alignment.
#[derive(Clone, Copy)]
pub struct CField {
    pub size: u64,
    pub align: u64,
}

/// A field the layout computation accepts: a power-of-two alignment a C
/// compiler uses, and a size small enough that no record here can overflow.
pub open spec fn field_ok(f: CField) -> bool {
    &&& (f.align == 1 || f.align == 2 || f.align == 4 || f.align == 8 || f.align == 16)
    &&& f.size <= 0xFFFF
}

/// The next offset at or after `x` aligned to `a`.
pub open spec fn spec_align_up(x: int, a: int) -> int {
    if x % a == 0 {
        x
    } else {
        x + (a - x % a)
    }
}

/// The extent reached after laying the fields out left to right from `at`,
/// each at the next offset aligned for it.
pub open spec fn spec_extent_from(fields: Seq<CField>, at: int) -> int
    decreases fields.len(),
{
    if fields.len() == 0 {
        at
    } else {
        spec_extent_from(
            fields.drop_first(),
            spec_align_up(at, fields[0].align as int) + fields[0].size as int,
        )
    }
}

/// The record's extent: the offset of the last field plus its size. This is
/// what the header declares as the record's struct size.
pub open spec fn spec_struct_extent(fields: Seq<CField>) -> int {
    spec_extent_from(fields, 0)
}

fn align_up(x: u64, a: u64) -> (r: u64)
    requires
        1 <= a <= 16,
        x <= 0x7FFF_FFFF,
    ensures
        r == spec_align_up(x as int, a as int),
        x <= r < x + a,
{
    let rem = x % a;
    if rem == 0 {
        x
    } else {
        x + (a - rem)
    }
}

/// Computes a record's extent under the C layout rules: each field at the
/// next offset aligned for it, the extent being the end of the last field.
pub fn struct_extent(fields: &Vec<CField>) -> (r: u64)
    requires
        fields@.len() <= 64,
        forall|i: int| 0 <= i < fields@.len() ==> field_ok(#[trigger] fields@[i]),
    ensures
        r == spec_struct_extent(fields@),
{
    let mut cur: u64 = 0;
    let mut i: usize = 0;
    proof {
        assert(fields@.skip(0) =~= fields@);
    }
    while i < fields.len()
        invariant
            i <= fields@.len(),
            fields@.len() <= 64,
            forall|j: int| 0 <= j < fields@.len() ==> field_ok(#[trigger] fields@[j]),
            cur <= 65551 * i,
            spec_extent_from(fields@.skip(i as int), cur as int) == spec_struct_extent(fields@),
        decreases fields@.len() - i,
    {
        let f = fields[i];
        let offset = align_up(cur, f.align);
        proof {
            assert(fields@.skip(i as int)[0] == fields@[i as int]);
            assert(fields@.skip(i as int).drop_first() =~= fields@.skip(i as int + 1));
        }
        cur = offset + f.size;
        i = i + 1;
    }
    proof {
        assert(fields@.skip(i as int) =~= Seq::<CField>::empty());
    }
    cur
}

/// An eight-byte, eight-aligned field: a pointer, a `size_t`, or a 64-bit
/// integer of the ABI.
pub fn word_field() -> (f: CField)
    ensures
        f.size == 8,
        f.align == 8,
        field_ok(f),
{
    CField { size: 8, align: 8 }
}

/// Builds a record of `n` word fields: the shape of every record checked
/// here, since each begins with the declared size and the extension pointer
/// and continues with pointers, counts and 64-bit values.
pub fn word_record(n: usize) -> (r: Vec<CField>)
    requires
        n <= 64,
    ensures
        r@.len() == n,
        forall|i: int| 0 <= i < r@.len() ==> field_ok(#[trigger] r@[i]),
        forall|i: int|
            0 <= i < r@.len() ==> (#[trigger] r@[i]).size == 8 && r@[i].align == 8,
{
    let mut r: Vec<CField> = Vec::new();
    let mut i: usize = 0;
    while i < n
        invariant
            i <= n,
            r@.len() == i,
            forall|j: int| 0 <= j < r@.len() ==> field_ok(#[trigger] r@[j]),
            forall|j: int|
                0 <= j < r@.len() ==> (#[trigger] r@[j]).size == 8 && r@[j].align == 8,
        decreases n - i,
    {
        r.push(word_field());
        i = i + 1;
    }
    r
}

/// Declared sizes from the ABI header for the records the adapter sends
/// during bootstrap: plugin initialization, client creation and destruction,
/// and failure-message extraction and destruction.
pub const PLUGIN_INITIALIZE_ARGS_STRUCT_SIZE: u64 = 16;

pub const CLIENT_CREATE_ARGS_STRUCT_SIZE: u64 = 88;

pub const CLIENT_DESTROY_ARGS_STRUCT_SIZE: u64 = 24;

pub const ERROR_MESSAGE_ARGS_STRUCT_SIZE: u64 = 40;

pub const ERROR_DESTROY_ARGS_STRUCT_SIZE: u64 = 24;

/// The field list of the plugin-initialization record: the declared size and
/// the extension pointer, nothing more.
pub fn plugin_initialize_args_fields() -> (r: Vec<CField>)
    ensures
        spec_struct_extent(r@) == PLUGIN_INITIALIZE_ARGS_STRUCT_SIZE,
{
    let r = word_record(2);
    proof {
        reveal_with_fuel(spec_extent_from, 3);
    }
    r
}

/// The field list of the client-creation record: header, creation options
/// and their count, three key-value callbacks each with its user argument,
/// and the client out-pointer.
pub fn client_create_args_fields() -> (r: Vec<CField>)
    ensures
        spec_struct_extent(r@) == CLIENT_CREATE_ARGS_STRUCT_SIZE,
{
    let r = word_record(11);
    proof {
        reveal_with_fuel(spec_extent_from, 12);
    }
    r
}

/// The field list of the client-destruction record: header and client.
pub fn client_destroy_args_fields() -> (r: Vec<CField>)
    ensures
        spec_struct_extent(r@) == CLIENT_DESTROY_ARGS_STRUCT_SIZE,
{
    let r = word_record(3);
    proof {
        reveal_with_fuel(spec_extent_from, 4);
    }
    r
}

/// The field list of the failure-message record: header, failure object,
/// message pointer and message length.
pub fn error_message_args_fields() -> (r: Vec<CField>)
    ensures
        spec_struct_extent(r@) == ERROR_MESSAGE_ARGS_STRUCT_SIZE,
{
    let r = word_record(5);
    proof {
        reveal_with_fuel(spec_extent_from, 6);
    }
    r
}

/// The field list of the failure-destruction record: header and failure
/// object.
pub fn error_destroy_args_fields() -> (r: Vec<CField>)
    ensures
        spec_struct_extent(r@) == ERROR_DESTROY_ARGS_STRUCT_SIZE,
{
    let r = word_record(3);
    proof {
        reveal_with_fuel(spec_extent_from, 4);
    }
    r
}

/// The declared size of the program record: header, code pointer and size,
/// format pointer and size.
pub const PROGRAM_STRUCT_SIZE: u64 = 48;

/// The field list of the program record.
pub fn program_fields() -> (r: Vec<CField>)
    ensures
        spec_struct_extent(r@) == PROGRAM_STRUCT_SIZE,
{
    let r = word_record(6);
    proof {
        reveal_with_fuel(spec_extent_from, 7);
    }
    r
}

/// The declared size of the execute-options record: header, the two
/// callback arrays, their counts, the 32-bit launch id (whose successor
/// field is pointer-aligned again), the non-donatable indices and their
/// count, the context, the call location, and the task bookkeeping.
pub const EXECUTE_OPTIONS_STRUCT_SIZE: u64 = 112;

/// The field list of the execute-options record; the launch id is the one
/// narrow field of the records the adapter sends.
pub fn execute_options_fields() -> (r: Vec<CField>)
    ensures
        spec_struct_extent(r@) == EXECUTE_OPTIONS_STRUCT_SIZE,
{
    let mut r = word_record(6);
    r.push(CField { size: 4, align: 4 });
    let mut tail = word_record(7);
    r.append(&mut tail);
    proof {
        reveal_with_fuel(spec_extent_from, 15);
        assert(r@.len() == 14);
        assert(forall|i: int| 0 <= i < r@.len() ==> field_ok(#[trigger] r@[i]));
        assert(spec_struct_extent(r@) == EXECUTE_OPTIONS_STRUCT_SIZE);
    }
    r
}

/// A declared record size as the ABI convention fills it in: a zero declared
/// size is replaced by the record's actual size at this header version.
pub fn default_struct_size(declared: u64, actual: u64) -> (r: u64)
    ensures
        declared == 0 ==> r == actual,
        declared != 0 ==> r == declared,
{
    if declared == 0 {
        actual
    } else {
        declared
    }
}

/// What version negotiation concluded about a loaded plugin.
#[derive(Clone, Copy, Debug, PartialEq, Eq, Structural)]
pub enum VersionCheck {
    /// The plugin can be used; a warning is owed when its minor version is
    /// older than the header's (an older minor means fewer optional entry
    /// points, not a format break).
    Compatible { warn_older_minor: bool },
    /// The plugin's major version differs from the header's: a format break.
    MajorMismatch,
}

/// Negotiates the two-part version read from the plugin's table against the
/// version the adapter was built against.
pub fn check_api_version(plugin_major: i32, plugin_minor: i32) -> (r: VersionCheck)
    ensures
        r == VersionCheck::MajorMismatch <==> plugin_major != PJRT_API_MAJOR,
        plugin_major == PJRT_API_MAJOR ==> r == (VersionCheck::Compatible {
            warn_older_minor: plugin_minor < PJRT_API_MINOR,
        }),
{
    if plugin_major != PJRT_API_MAJOR {
        VersionCheck::MajorMismatch
    } else {
        VersionCheck::Compatible { warn_older_minor: plugin_minor < PJRT_API_MINOR }
    }
}

} // verus!
