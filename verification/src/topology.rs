//! The topology description: an ahead-of-time view of the plugin's device
//! layout, usable to compile without a live client.
//!
//! A topology carries its platform name and version and the identity
//! metadata of its device descriptions. Its serialized form is a
//! length-prefixed byte format, and deserialization is proved to reproduce
//! the platform name, the platform version and the device description set
//! of what was serialized.

use vstd::bytes::lemma_auto_spec_u32_to_from_le_bytes;
use vstd::bytes::spec_u32_from_le_bytes;
use vstd::bytes::spec_u32_to_le_bytes;
use vstd::bytes::u32_from_le_bytes;
use vstd::bytes::u32_to_le_bytes;
use vstd::prelude::*;

use crate::device::PJRTDeviceDescriptionRef;
use crate::error::PJRTError;
use crate::error::PJRTErrorKind;
use crate::handle::HandleState;
use crate::handle::OwnedHandle;
use crate::raw::clone_bytes;

verus! {

/// A topology handle and the metadata recorded from it.
#[derive(Debug)]
pub struct PJRTTopologyDescription {
    pub handle: OwnedHandle,
    pub platform_name: Vec<u8>,
    pub platform_version: Vec<u8>,
    pub descriptions: Vec<PJRTDeviceDescriptionRef>,
}

/// The identity metadata of one device description, as the serialized form
/// carries it.
pub open spec fn desc_views(ds: Seq<PJRTDeviceDescriptionRef>) -> Seq<(i32, i32, Seq<u8>)> {
    ds.map_values(|d: PJRTDeviceDescriptionRef| (d.id, d.process_index, d.kind@))
}

/// The unsigned 32-bit carrier of a signed 32-bit value, by two's
/// complement.
pub open spec fn spec_u32_of_i32(x: i32) -> u32 {
    if x >= 0 {
        x as u32
    } else {
        (x + 0x1_0000_0000) as u32
    }
}

/// The signed reading of an unsigned 32-bit carrier.
pub open spec fn spec_i32_of_u32(y: u32) -> i32 {
    if y < 0x8000_0000 {
        y as i32
    } else {
        (y - 0x1_0000_0000) as i32
    }
}

/// Carrying a signed value through its unsigned form loses nothing.
pub proof fn lemma_i32_u32_round_trip(x: i32)
    ensures
        spec_i32_of_u32(spec_u32_of_i32(x)) == x,
{
}

fn u32_of_i32(x: i32) -> (r: u32)
    ensures
        r == spec_u32_of_i32(x),
{
    if x >= 0 {
        x as u32
    } else {
        (((x as i64) + 0x1_0000_0000) as u64) as u32
    }
}

fn i32_of_u32(y: u32) -> (r: i32)
    ensures
        r == spec_i32_of_u32(y),
{
    if y < 0x8000_0000 {
        y as i32
    } else {
        ((y as i64) - 0x1_0000_0000) as i32
    }
}

/// A length-prefixed byte span: four little-endian length bytes, then the
/// payload.
pub open spec fn spec_enc_chunk(b: Seq<u8>) -> Seq<u8>
    recommends
        b.len() <= u32::MAX,
{
    spec_u32_to_le_bytes(b.len() as u32) + b
}

/// One serialized device description: id, process index, kind.
pub open spec fn spec_enc_desc(d: PJRTDeviceDescriptionRef) -> Seq<u8> {
    spec_u32_to_le_bytes(spec_u32_of_i32(d.id)) + spec_u32_to_le_bytes(
        spec_u32_of_i32(d.process_index),
    ) + spec_enc_chunk(d.kind@)
}

/// The serialized device descriptions, in order.
pub open spec fn spec_enc_descs(ds: Seq<PJRTDeviceDescriptionRef>) -> Seq<u8>
    decreases ds.len(),
{
    if ds.len() == 0 {
        Seq::empty()
    } else {
        spec_enc_desc(ds[0]) + spec_enc_descs(ds.drop_first())
    }
}

impl PJRTTopologyDescription {
    /// Every span of the topology fits the serialized form's length prefix.
    pub open spec fn wf(&self) -> bool {
        &&& self.platform_name@.len() <= u32::MAX
        &&& self.platform_version@.len() <= u32::MAX
        &&& self.descriptions@.len() <= u32::MAX
        &&& forall|i: int|
            0 <= i < self.descriptions@.len() ==> (#[trigger] self.descriptions@[i]).wf()
    }

    /// The serialized form: platform name, platform version, and the device
    /// descriptions behind their count.
    pub open spec fn spec_serialized(&self) -> Seq<u8> {
        spec_enc_chunk(self.platform_name@) + spec_enc_chunk(self.platform_version@)
            + spec_u32_to_le_bytes(self.descriptions@.len() as u32) + spec_enc_descs(
            self.descriptions@,
        )
    }
}

/// The parse of four length bytes: the value and what follows.
pub open spec fn spec_parse_u32(b: Seq<u8>) -> Option<(u32, Seq<u8>)> {
    if b.len() >= 4 {
        Some((spec_u32_from_le_bytes(b.take(4)), b.skip(4)))
    } else {
        None
    }
}

/// The parse of a length-prefixed span: the payload and what follows.
pub open spec fn spec_parse_chunk(b: Seq<u8>) -> Option<(Seq<u8>, Seq<u8>)> {
    match spec_parse_u32(b) {
        Some((n, rest)) => if rest.len() >= n {
            Some((rest.take(n as int), rest.skip(n as int)))
        } else {
            None
        },
        None => None,
    }
}

/// The parse of one serialized device description.
pub open spec fn spec_parse_desc(b: Seq<u8>) -> Option<((i32, i32, Seq<u8>), Seq<u8>)> {
    match spec_parse_u32(b) {
        Some((idb, r1)) => match spec_parse_u32(r1) {
            Some((pib, r2)) => match spec_parse_chunk(r2) {
                Some((kind, r3)) => Some(
                    ((spec_i32_of_u32(idb), spec_i32_of_u32(pib), kind), r3),
                ),
                None => None,
            },
            None => None,
        },
        None => None,
    }
}

/// The parse of `n` serialized device descriptions, in order.
pub open spec fn spec_parse_descs(b: Seq<u8>, n: nat) -> Option<(Seq<(i32, i32, Seq<u8>)>, Seq<u8>)>
    decreases n,
{
    if n == 0 {
        Some((Seq::empty(), b))
    } else {
        match spec_parse_desc(b) {
            Some((d, rest)) => match spec_parse_descs(rest, (n - 1) as nat) {
                Some((ds, rest2)) => Some((seq![d] + ds, rest2)),
                None => None,
            },
            None => None,
        }
    }
}

/// The parse of a whole serialized topology, demanding that nothing trail.
pub open spec fn spec_parse_topology(b: Seq<u8>) -> Option<
    (Seq<u8>, Seq<u8>, Seq<(i32, i32, Seq<u8>)>),
> {
    match spec_parse_chunk(b) {
        Some((name, r1)) => match spec_parse_chunk(r1) {
            Some((version, r2)) => match spec_parse_u32(r2) {
                Some((n, r3)) => match spec_parse_descs(r3, n as nat) {
                    Some((descs, r4)) => if r4.len() == 0 {
                        Some((name, version, descs))
                    } else {
                        None
                    },
                    None => None,
                },
                None => None,
            },
            None => None,
        },
        None => None,
    }
}

/// Parsing four length bytes consumes exactly what encoding them produced.
pub proof fn lemma_parse_u32_exact(x: u32, rest: Seq<u8>)
    ensures
        spec_parse_u32(spec_u32_to_le_bytes(x) + rest) == Some((x, rest)),
{
    lemma_auto_spec_u32_to_from_le_bytes();
    let e = spec_u32_to_le_bytes(x);
    assert((e + rest).take(4) =~= e);
    assert((e + rest).skip(4) =~= rest);
}

/// Parsing a length-prefixed span consumes exactly what encoding it
/// produced and yields the payload.
pub proof fn lemma_parse_chunk_exact(payload: Seq<u8>, rest: Seq<u8>)
    requires
        payload.len() <= u32::MAX,
    ensures
        spec_parse_chunk(spec_enc_chunk(payload) + rest) == Some((payload, rest)),
{
    let n = payload.len() as u32;
    assert(spec_enc_chunk(payload) + rest =~= spec_u32_to_le_bytes(n) + (payload + rest));
    lemma_parse_u32_exact(n, payload + rest);
    assert((payload + rest).take(n as int) =~= payload);
    assert((payload + rest).skip(n as int) =~= rest);
}

/// Parsing one serialized device description yields its identity metadata.
pub proof fn lemma_parse_desc_exact(d: PJRTDeviceDescriptionRef, rest: Seq<u8>)
    requires
        d.wf(),
    ensures
        spec_parse_desc(spec_enc_desc(d) + rest) == Some(
            ((d.id, d.process_index, d.kind@), rest),
        ),
{
    let e_id = spec_u32_to_le_bytes(spec_u32_of_i32(d.id));
    let e_pi = spec_u32_to_le_bytes(spec_u32_of_i32(d.process_index));
    let e_kind = spec_enc_chunk(d.kind@);
    assert(spec_enc_desc(d) + rest =~= e_id + (e_pi + (e_kind + rest)));
    lemma_parse_u32_exact(spec_u32_of_i32(d.id), e_pi + (e_kind + rest));
    lemma_parse_u32_exact(spec_u32_of_i32(d.process_index), e_kind + rest);
    lemma_parse_chunk_exact(d.kind@, rest);
    lemma_i32_u32_round_trip(d.id);
    lemma_i32_u32_round_trip(d.process_index);
}

/// Parsing the serialized device descriptions yields them all, in order.
pub proof fn lemma_parse_descs_exact(ds: Seq<PJRTDeviceDescriptionRef>, rest: Seq<u8>)
    requires
        forall|i: int| 0 <= i < ds.len() ==> (#[trigger] ds[i]).wf(),
    ensures
        spec_parse_descs(spec_enc_descs(ds) + rest, ds.len() as nat) == Some(
            (desc_views(ds), rest),
        ),
    decreases ds.len(),
{
    if ds.len() == 0 {
        assert(spec_enc_descs(ds) + rest =~= rest);
        assert(desc_views(ds) =~= Seq::<(i32, i32, Seq<u8>)>::empty());
        assert(spec_parse_descs(rest, 0) == Some((Seq::<(i32, i32, Seq<u8>)>::empty(), rest)));
    } else {
        let tail = ds.drop_first();
        assert(spec_enc_descs(ds) + rest =~= spec_enc_desc(ds[0]) + (spec_enc_descs(tail) + rest));
        lemma_parse_desc_exact(ds[0], spec_enc_descs(tail) + rest);
        assert(forall|i: int| 0 <= i < tail.len() ==> (#[trigger] tail[i]).wf());
        lemma_parse_descs_exact(tail, rest);
        assert(desc_views(ds) =~= seq![(ds[0].id, ds[0].process_index, ds[0].kind@)] + desc_views(
            tail,
        ));
    }
}

/// Law: a serialize then deserialize round trip reproduces the platform
/// name, the platform version and the device description set.
pub proof fn lemma_topology_round_trip(t: PJRTTopologyDescription)
    requires
        t.wf(),
    ensures
        spec_parse_topology(t.spec_serialized()) == Some(
            (t.platform_name@, t.platform_version@, desc_views(t.descriptions@)),
        ),
{
    let name = t.platform_name@;
    let version = t.platform_version@;
    let ds = t.descriptions@;
    let count = spec_u32_to_le_bytes(ds.len() as u32);
    assert(t.spec_serialized() =~= spec_enc_chunk(name) + (spec_enc_chunk(version) + (count
        + spec_enc_descs(ds))));
    lemma_parse_chunk_exact(name, spec_enc_chunk(version) + (count + spec_enc_descs(ds)));
    lemma_parse_chunk_exact(version, count + spec_enc_descs(ds));
    lemma_parse_u32_exact(ds.len() as u32, spec_enc_descs(ds));
    assert(spec_enc_descs(ds) =~= spec_enc_descs(ds) + Seq::<u8>::empty());
    lemma_parse_descs_exact(ds, Seq::<u8>::empty());
}

/// Appending one description extends the serialized descriptions by its
/// encoding.
proof fn lemma_enc_descs_push(s: Seq<PJRTDeviceDescriptionRef>, d: PJRTDeviceDescriptionRef)
    ensures
        spec_enc_descs(s.push(d)) == spec_enc_descs(s) + spec_enc_desc(d),
    decreases s.len(),
{
    if s.len() == 0 {
        let e = Seq::<PJRTDeviceDescriptionRef>::empty();
        assert(s.push(d).drop_first() =~= e);
        assert(s.push(d)[0] == d);
        assert(spec_enc_descs(e) == Seq::<u8>::empty());
        assert(spec_enc_descs(s.push(d)) == spec_enc_desc(d) + Seq::<u8>::empty());
        assert(spec_enc_desc(d) + Seq::<u8>::empty() =~= spec_enc_desc(d));
        assert(s =~= e);
        assert(spec_enc_descs(s) + spec_enc_desc(d) =~= spec_enc_desc(d));
    } else {
        assert(s.push(d)[0] == s[0]);
        assert(s.push(d).drop_first() =~= s.drop_first().push(d));
        lemma_enc_descs_push(s.drop_first(), d);
        assert(spec_enc_descs(s.push(d)) =~= spec_enc_descs(s) + spec_enc_desc(d));
    }
}

fn push_u32(out: &mut Vec<u8>, x: u32)
    ensures
        final(out)@ == old(out)@ + spec_u32_to_le_bytes(x),
{
    let mut b = u32_to_le_bytes(x);
    out.append(&mut b);
}

fn push_chunk(out: &mut Vec<u8>, payload: &Vec<u8>)
    requires
        payload@.len() <= u32::MAX,
    ensures
        final(out)@ == old(out)@ + spec_enc_chunk(payload@),
{
    push_u32(out, payload.len() as u32);
    let mut c = clone_bytes(payload);
    out.append(&mut c);
    proof {
        assert(final(out)@ =~= old(out)@ + spec_enc_chunk(payload@));
    }
}

fn read_u32(bytes: &Vec<u8>, pos: usize) -> (r: Option<(u32, usize)>)
    requires
        pos <= bytes@.len(),
    ensures
        r is Some <==> spec_parse_u32(bytes@.skip(pos as int)) is Some,
        r matches Some((x, p)) ==> (spec_parse_u32(bytes@.skip(pos as int)) matches Some((sx, srest))
            && x == sx && p == pos + 4 && p <= bytes@.len() && srest == bytes@.skip(p as int)),
{
    if bytes.len() - pos >= 4 {
        let s = vstd::slice::slice_subrange(bytes.as_slice(), pos, pos + 4);
        let x = u32_from_le_bytes(s);
        proof {
            assert(bytes@.skip(pos as int).take(4) =~= bytes@.subrange(pos as int, pos as int + 4));
            assert(bytes@.skip(pos as int).skip(4) =~= bytes@.skip(pos as int + 4));
        }
        Some((x, pos + 4))
    } else {
        None
    }
}

fn read_chunk(bytes: &Vec<u8>, pos: usize) -> (r: Option<(Vec<u8>, usize)>)
    requires
        pos <= bytes@.len(),
    ensures
        r is Some <==> spec_parse_chunk(bytes@.skip(pos as int)) is Some,
        r matches Some((v, p)) ==> (spec_parse_chunk(bytes@.skip(pos as int)) matches Some(
            (payload, srest),
        ) && v@ == payload && p <= bytes@.len() && srest == bytes@.skip(p as int)),
{
    match read_u32(bytes, pos) {
        None => None,
        Some((n, p1)) => {
            if (bytes.len() - p1) as u64 >= n as u64 {
                let end = p1 + (n as usize);
                let s = vstd::slice::slice_subrange(bytes.as_slice(), p1, end);
                let v = vstd::slice::slice_to_vec(s);
                proof {
                    assert(bytes@.skip(p1 as int).take(n as int) =~= bytes@.subrange(
                        p1 as int,
                        p1 as int + n as int,
                    ));
                    assert(bytes@.skip(p1 as int).skip(n as int) =~= bytes@.skip(
                        p1 as int + n as int,
                    ));
                }
                Some((v, end))
            } else {
                None
            }
        },
    }
}

fn read_desc(bytes: &Vec<u8>, pos: usize) -> (r: Option<(PJRTDeviceDescriptionRef, usize)>)
    requires
        pos <= bytes@.len(),
    ensures
        r is Some <==> spec_parse_desc(bytes@.skip(pos as int)) is Some,
        r matches Some((d, p)) ==> (spec_parse_desc(bytes@.skip(pos as int)) matches Some(
            (meta, srest),
        ) && d.id == meta.0 && d.process_index == meta.1 && d.kind@ == meta.2 && d.addr == 0
            && d.wf() && p <= bytes@.len() && srest == bytes@.skip(p as int)),
{
    match read_u32(bytes, pos) {
        None => None,
        Some((idb, p1)) => {
            match read_u32(bytes, p1) {
                None => None,
                Some((pib, p2)) => {
                    match read_chunk(bytes, p2) {
                        None => None,
                        Some((kind, p3)) => {
                            let id = i32_of_u32(idb);
                            let process_index = i32_of_u32(pib);
                            proof {
                                assert(kind@.len() <= u32::MAX);
                            }
                            Some((PJRTDeviceDescriptionRef::new(0, id, process_index, kind), p3))
                        },
                    }
                },
            }
        },
    }
}

impl PJRTTopologyDescription {
    /// Wraps a topology the plugin handed out, with the metadata recorded
    /// from it.
    pub fn new(
        addr: u64,
        platform_name: Vec<u8>,
        platform_version: Vec<u8>,
        descriptions: Vec<PJRTDeviceDescriptionRef>,
    ) -> (t: PJRTTopologyDescription)
        ensures
            t.handle.addr == addr,
            t.handle.state == HandleState::Live,
            t.platform_name@ == platform_name@,
            t.platform_version@ == platform_version@,
            t.descriptions@ == descriptions@,
    {
        PJRTTopologyDescription {
            handle: OwnedHandle::new(addr),
            platform_name,
            platform_version,
            descriptions,
        }
    }

    /// The recorded platform name.
    pub fn platform_name(&self) -> (r: Vec<u8>)
        ensures
            r@ == self.platform_name@,
    {
        clone_bytes(&self.platform_name)
    }

    /// The recorded platform version.
    pub fn platform_version(&self) -> (r: Vec<u8>)
        ensures
            r@ == self.platform_version@,
    {
        clone_bytes(&self.platform_version)
    }

    /// Serializes the topology into the length-prefixed byte form.
    pub fn serialize(&self) -> (out: Vec<u8>)
        requires
            self.wf(),
        ensures
            out@ == self.spec_serialized(),
    {
        let mut out: Vec<u8> = Vec::new();
        push_chunk(&mut out, &self.platform_name);
        push_chunk(&mut out, &self.platform_version);
        push_u32(&mut out, self.descriptions.len() as u32);
        let ghost header = out@;
        let mut i: usize = 0;
        while i < self.descriptions.len()
            invariant
                i <= self.descriptions@.len(),
                self.wf(),
                out@ == header + spec_enc_descs(self.descriptions@.take(i as int)),
            decreases self.descriptions@.len() - i,
        {
            let d = &self.descriptions[i];
            push_u32(&mut out, u32_of_i32(d.id));
            push_u32(&mut out, u32_of_i32(d.process_index));
            push_chunk(&mut out, &d.kind);
            proof {
                assert(self.descriptions@.take(i as int + 1) =~= self.descriptions@.take(
                    i as int,
                ).push(self.descriptions@[i as int]));
                lemma_enc_descs_push(
                    self.descriptions@.take(i as int),
                    self.descriptions@[i as int],
                );
                assert(out@ =~= header + spec_enc_descs(self.descriptions@.take(i as int + 1)));
            }
            i = i + 1;
        }
        proof {
            assert(self.descriptions@.take(self.descriptions@.len() as int)
                =~= self.descriptions@);
            assert(out@ =~= self.spec_serialized());
        }
        out
    }

    /// Deserializes the byte form, holding it to the exact grammar: a parse
    /// succeeds exactly on byte strings the serializer produces, and yields
    /// the platform name, platform version and device descriptions they
    /// carry. The deserialized topology is paired with the handle obtained
    /// for it.
    pub fn deserialize(addr: u64, bytes: &Vec<u8>) -> (r: Result<
        PJRTTopologyDescription,
        PJRTError,
    >)
        ensures
            r is Ok <==> spec_parse_topology(bytes@) is Some,
            r is Ok ==> (spec_parse_topology(bytes@) matches Some((name, version, descs)) && {
                let t = r->Ok_0;
                &&& t.platform_name@ == name
                &&& t.platform_version@ == version
                &&& desc_views(t.descriptions@) == descs
                &&& t.handle.addr == addr
                &&& t.handle.state == HandleState::Live
                &&& t.wf()
            }),
            r is Err ==> r->Err_0.kind == PJRTErrorKind::LocalValidation,
    {
        proof {
            assert(bytes@.skip(0) =~= bytes@);
        }
        let name_parse = read_chunk(bytes, 0);
        if name_parse.is_none() {
            return Err(PJRTError::invalid_arg("serialized topology is truncated"));
        }
        let (platform_name, p1) = name_parse.unwrap();
        let version_parse = read_chunk(bytes, p1);
        if version_parse.is_none() {
            return Err(PJRTError::invalid_arg("serialized topology is truncated"));
        }
        let (platform_version, p2) = version_parse.unwrap();
        let count_parse = read_u32(bytes, p2);
        if count_parse.is_none() {
            return Err(PJRTError::invalid_arg("serialized topology is truncated"));
        }
        let (count, p3) = count_parse.unwrap();
        let ghost gname = platform_name@;
        let ghost gversion = platform_version@;
        let mut descriptions: Vec<PJRTDeviceDescriptionRef> = Vec::new();
        let mut pos: usize = p3;
        let mut i: u32 = 0;
        while i < count
            invariant
                i <= count,
                pos <= bytes@.len(),
                p1 <= bytes@.len(),
                p2 <= bytes@.len(),
                p3 <= bytes@.len(),
                platform_name@ == gname,
                platform_version@ == gversion,
                spec_parse_chunk(bytes@.skip(0)) == Some((gname, bytes@.skip(p1 as int))),
                spec_parse_chunk(bytes@.skip(p1 as int)) == Some(
                    (gversion, bytes@.skip(p2 as int)),
                ),
                spec_parse_u32(bytes@.skip(p2 as int)) == Some((count, bytes@.skip(p3 as int))),
                descriptions@.len() == i,
                forall|j: int|
                    0 <= j < descriptions@.len() ==> (#[trigger] descriptions@[j]).wf(),
                spec_parse_descs(bytes@.skip(p3 as int), count as nat) == (match spec_parse_descs(
                    bytes@.skip(pos as int),
                    (count - i) as nat,
                ) {
                    Some((ds, srest)) => Some((desc_views(descriptions@) + ds, srest)),
                    None => None::<(Seq<(i32, i32, Seq<u8>)>, Seq<u8>)>,
                }),
            decreases count - i,
        {
            let desc_parse = read_desc(bytes, pos);
            if desc_parse.is_none() {
                proof {
                    assert(bytes@.skip(0) =~= bytes@);
                    assert(spec_parse_descs(bytes@.skip(pos as int), (count - i) as nat) is None);
                }
                return Err(PJRTError::invalid_arg("serialized topology is truncated"));
            }
            let (d, p) = desc_parse.unwrap();
            proof {
                let ghost tail_n = (count - i) as nat;
                assert(spec_parse_descs(bytes@.skip(pos as int), tail_n) == (
                match spec_parse_desc(bytes@.skip(pos as int)) {
                    Some((dm, rest)) => match spec_parse_descs(rest, (tail_n - 1) as nat) {
                        Some((ds, rest2)) => Some((seq![dm] + ds, rest2)),
                        None => None::<(Seq<(i32, i32, Seq<u8>)>, Seq<u8>)>,
                    },
                    None => None::<(Seq<(i32, i32, Seq<u8>)>, Seq<u8>)>,
                }));
            }
            descriptions.push(d);
            proof {
                let prev = descriptions@.drop_last();
                assert(prev =~= descriptions@.subrange(0, descriptions@.len() - 1));
                assert(desc_views(descriptions@) =~= desc_views(descriptions@.drop_last()) + seq![
                    (d.id, d.process_index, d.kind@),
                ]);
            }
            pos = p;
            i = i + 1;
            proof {
                let rem = spec_parse_descs(bytes@.skip(pos as int), (count - i) as nat);
                match rem {
                    Some((ds2, srest)) => {
                        assert(desc_views(descriptions@.drop_last()) + (seq![
                            (d.id, d.process_index, d.kind@),
                        ] + ds2) =~= desc_views(descriptions@) + ds2);
                    },
                    None => {},
                }
            }
        }
        if pos != bytes.len() {
            proof {
                assert(bytes@.skip(0) =~= bytes@);
                assert(bytes@.skip(pos as int).len() != 0);
                assert(spec_parse_descs(bytes@.skip(pos as int), 0) == Some(
                    (Seq::<(i32, i32, Seq<u8>)>::empty(), bytes@.skip(pos as int)),
                ));
            }
            return Err(PJRTError::invalid_arg("serialized topology has trailing bytes"));
        }
        proof {
            assert(bytes@.skip(0) =~= bytes@);
            assert(spec_parse_descs(bytes@.skip(pos as int), 0) == Some(
                (Seq::<(i32, i32, Seq<u8>)>::empty(), bytes@.skip(pos as int)),
            ));
            assert(desc_views(descriptions@) + Seq::<(i32, i32, Seq<u8>)>::empty() =~= desc_views(
                descriptions@,
            ));
            assert(bytes@.skip(pos as int).len() == 0);
        }
        Ok(
            PJRTTopologyDescription {
                handle: OwnedHandle::new(addr),
                platform_name,
                platform_version,
                descriptions,
            },
        )
    }

    /// Validates deserializing through the plugin: the blob must be
    /// non-empty.
    pub fn plan_plugin_deserialize(serialized_len: usize) -> (r: Result<(), PJRTError>)
        ensures
            r is Ok <==> serialized_len != 0,
            r is Err ==> r->Err_0.kind == PJRTErrorKind::LocalValidation,
    {
        if serialized_len == 0 {
            return Err(PJRTError::invalid_arg("serialized_topology must not be empty"));
        }
        Ok(())
    }

    /// Validates compiling against the topology and loading into a client:
    /// the client must be non-null, and the intermediate serialized
    /// executable non-empty, since the topology-compiled object and the
    /// client-loadable object are distinct plugin object kinds.
    pub fn plan_compile_and_load(&self, client: u64, serialized_len: usize) -> (r: Result<
        (),
        PJRTError,
    >)
        ensures
            r is Ok <==> (self.handle.addr != 0 && client != 0 && serialized_len != 0),
            r is Err ==> r->Err_0.kind == PJRTErrorKind::LocalValidation,
    {
        let _t = self.handle.raw_checked("PJRT_TopologyDescription is null")?;
        if client == 0 {
            return Err(PJRTError::invalid_arg("PJRT_Client is null"));
        }
        if serialized_len == 0 {
            return Err(PJRTError::invalid_arg("compiled executable serialized to empty bytes"));
        }
        Ok(())
    }

    /// Decides whether dropping this wrapper must issue the destroy entry
    /// point.
    pub fn begin_destroy(&mut self) -> (do_destroy: bool)
        ensures
            do_destroy == (old(self).handle.state == HandleState::Live && old(self).handle.addr
                != 0),
            final(self).handle.state != HandleState::Live,
    {
        self.handle.begin_destroy()
    }
}

} // verus!
