//! Enrolled print templates and their byte-buffer representation.
//!
//! A template owns the processed biometric payload for one finger together
//! with the driver and device-type identifiers that say which hardware can
//! use it.  A template with an empty payload stands for the absent handle
//! the native layer reports as null.  For external persistence a template
//! is framed into a single opaque buffer: the driver id and device type in
//! little-endian order, then the payload; `from_bytes` undoes the framing
//! and rejects anything too short to contain it.

use vstd::bytes::*;
use vstd::prelude::*;
use vstd::slice::slice_subrange;

use crate::errors::FPrintError;
use crate::finger::Finger;

verus! {

/// Mathematical image of a template: its identifiers and payload bytes.
#[verifier::ext_equal]
pub struct PrintView {
    pub driver_id: u16,
    pub devtype: u32,
    pub data: Seq<u8>,
}

/// Enrolled biometric reference data for one finger.
///
/// Exclusively owned by its holder and never implicitly duplicated; the
/// payload can be read out as bytes for storage and read back later.
#[derive(Debug)]
pub struct PrintData {
    driver_id: u16,
    devtype: u32,
    data: Vec<u8>,
}

impl View for PrintData {
    type V = PrintView;

    closed spec fn view(&self) -> PrintView {
        PrintView { driver_id: self.driver_id, devtype: self.devtype, data: self.data@ }
    }
}

/// The serialized form of a template: driver id (2 bytes), device type
/// (4 bytes), then the payload, all little-endian.
pub open spec fn serialized_spec(v: PrintView) -> Seq<u8> {
    spec_u16_to_le_bytes(v.driver_id) + spec_u32_to_le_bytes(v.devtype) + v.data
}

/// The template a byte buffer deserializes to, if any.  A buffer is well
/// formed when it holds the six header bytes and a non-empty payload.
pub open spec fn parse_spec(b: Seq<u8>) -> Option<PrintView> {
    if b.len() >= 7 {
        Some(
            PrintView {
                driver_id: spec_u16_from_le_bytes(b.subrange(0, 2)),
                devtype: spec_u32_from_le_bytes(b.subrange(2, 6)),
                data: b.skip(6),
            },
        )
    } else {
        None
    }
}

impl Default for PrintData {
    /// The same template `new` builds: no payload, no identifiers.
    fn default() -> (r: PrintData)
        ensures
            r@ == (PrintView { driver_id: 0, devtype: 0, data: Seq::<u8>::empty() }),
    {
        PrintData::new()
    }
}

impl PrintData {
    /// A template holding no data yet, standing for an absent native
    /// handle.
    pub fn new() -> (r: PrintData)
        ensures
            r@ == (PrintView { driver_id: 0, devtype: 0, data: Seq::<u8>::empty() }),
    {
        let r = PrintData { driver_id: 0, devtype: 0, data: Vec::new() };
        proof {
            assert(r@ =~= PrintView { driver_id: 0, devtype: 0, data: Seq::<u8>::empty() });
        }
        r
    }

    /// Wraps the payload an enrollment or load produced, together with
    /// the identifiers of the hardware it came from.
    pub fn with_data(driver_id: u16, devtype: u32, data: Vec<u8>) -> (r: PrintData)
        ensures
            r@ == (PrintView { driver_id, devtype, data: data@ }),
    {
        PrintData { driver_id, devtype, data }
    }

    /// True of a template that actually carries a payload.
    pub open spec fn has_data(self) -> bool {
        self@.data.len() > 0
    }

    /// Classifies the outcome of the native save-to-disk call, which
    /// stores the template for `finger`, unconditionally overwriting any
    /// prior template for the same finger and device type.  A zero code
    /// is success; anything else is a save failure carrying the code.
    pub fn save_to_disk(&self, finger: Finger, code: i32) -> (r: Result<(), FPrintError>)
        ensures
            code == 0 ==> r is Ok,
            code != 0 ==> r == Err::<(), FPrintError>(FPrintError::SaveFailed(code)),
    {
        let _ = finger;
        if code == 0 {
            Ok(())
        } else {
            Err(FPrintError::SaveFailed(code))
        }
    }

    /// Serializes this template into one opaque buffer, or fails when
    /// there is no payload to represent.
    pub fn as_bytes(&self) -> (r: Result<Vec<u8>, FPrintError>)
        ensures
            self@.data.len() == 0 ==> r == Err::<Vec<u8>, FPrintError>(
                FPrintError::SerializationFailed,
            ),
            self@.data.len() > 0 ==> (r matches Ok(b) && b@ == serialized_spec(self@)),
    {
        if self.data.len() == 0 {
            return Err(FPrintError::SerializationFailed);
        }
        let mut out = u16_to_le_bytes(self.driver_id);
        let mut devtype_bytes = u32_to_le_bytes(self.devtype);
        out.append(&mut devtype_bytes);
        let ghost header: Seq<u8> = spec_u16_to_le_bytes(self@.driver_id) + spec_u32_to_le_bytes(
            self@.devtype,
        );
        let mut i: usize = 0;
        while i < self.data.len()
            invariant
                i <= self.data.len(),
                out@ == header + self@.data.take(i as int),
            decreases self.data.len() - i,
        {
            out.push(self.data[i]);
            proof {
                assert(header + self@.data.take(i as int) + seq![self@.data[i as int]] =~= header
                    + self@.data.take(i as int + 1));
            }
            i += 1;
        }
        proof {
            assert(header + self@.data.take(self@.data.len() as int) =~= serialized_spec(self@));
        }
        Ok(out)
    }

    /// Alias for `as_bytes`: the unified byte representation of this
    /// template.
    pub fn get_data(&self) -> (r: Result<Vec<u8>, FPrintError>)
        ensures
            self@.data.len() == 0 ==> r == Err::<Vec<u8>, FPrintError>(
                FPrintError::SerializationFailed,
            ),
            self@.data.len() > 0 ==> (r matches Ok(b) && b@ == serialized_spec(self@)),
    {
        self.as_bytes()
    }

    /// Reads a template back from a buffer previously produced by
    /// `as_bytes`, rejecting malformed input.
    pub fn from_bytes(bytes: &Vec<u8>) -> (r: Result<PrintData, FPrintError>)
        ensures
            parse_spec(bytes@) matches Some(v) ==> (r matches Ok(p) && p@ == v),
            parse_spec(bytes@) is None ==> r == Err::<PrintData, FPrintError>(
                FPrintError::SerializationFailed,
            ),
    {
        if bytes.len() < 7 {
            return Err(FPrintError::SerializationFailed);
        }
        let driver_id = u16_from_le_bytes(slice_subrange(bytes.as_slice(), 0, 2));
        let devtype = u32_from_le_bytes(slice_subrange(bytes.as_slice(), 2, 6));
        let mut data: Vec<u8> = Vec::new();
        let mut i: usize = 6;
        while i < bytes.len()
            invariant
                6 <= i <= bytes@.len(),
                bytes@.len() >= 7,
                data@ == bytes@.subrange(6, i as int),
            decreases bytes.len() - i,
        {
            data.push(bytes[i]);
            proof {
                assert(bytes@.subrange(6, i as int) + seq![bytes@[i as int]] =~= bytes@.subrange(
                    6,
                    i as int + 1,
                ));
            }
            i += 1;
        }
        let r = PrintData { driver_id, devtype, data };
        proof {
            assert(bytes@.subrange(6, bytes@.len() as int) =~= bytes@.skip(6));
            assert(r@ =~= parse_spec(bytes@)->Some_0);
        }
        Ok(r)
    }

    /// Alias for `from_bytes`: loads a template from a buffer previously
    /// supplied by `get_data`.
    pub fn from_data(data: &Vec<u8>) -> (r: Result<PrintData, FPrintError>)
        ensures
            parse_spec(data@) matches Some(v) ==> (r matches Ok(p) && p@ == v),
            parse_spec(data@) is None ==> r == Err::<PrintData, FPrintError>(
                FPrintError::SerializationFailed,
            ),
    {
        PrintData::from_bytes(data)
    }

    /// How many payload bytes this template carries; zero marks the
    /// absent handle.
    pub fn data_len(&self) -> (r: usize)
        ensures
            r == self@.data.len(),
    {
        self.data.len()
    }

    /// The id of the driver this template came from; the template is only
    /// usable on hardware controlled by that driver.
    pub fn get_driver_id(&self) -> (r: u16)
        ensures
            r == self@.driver_id,
    {
        self.driver_id
    }

    /// The device type under the parent driver this template is
    /// compatible with.
    pub fn get_devtype(&self) -> (r: u32)
        ensures
            r == self@.devtype,
    {
        self.devtype
    }
}

/// The byte sequences of a gallery of byte buffers, in order.
pub open spec fn gallery_views(buffers: Seq<Vec<u8>>) -> Seq<Seq<u8>> {
    buffers.map_values(|b: Vec<u8>| b@)
}

/// The templates a gallery of byte buffers reconstructs to, in order,
/// with the malformed buffers skipped.
pub open spec fn parse_gallery_spec(buffers: Seq<Seq<u8>>) -> Seq<PrintView>
    decreases buffers.len(),
{
    if buffers.len() == 0 {
        Seq::empty()
    } else {
        parse_gallery_spec(buffers.drop_last()) + (match parse_spec(buffers.last()) {
            Some(v) => seq![v],
            None => Seq::empty(),
        })
    }
}

/// The caller-side positions of the gallery buffers that parse, in
/// order: entry `j` of the reconstructed gallery came from the buffer at
/// position `kept_indices_spec(buffers)[j]` of the caller's gallery.
pub open spec fn kept_indices_spec(buffers: Seq<Seq<u8>>) -> Seq<int>
    decreases buffers.len(),
{
    if buffers.len() == 0 {
        Seq::empty()
    } else {
        kept_indices_spec(buffers.drop_last()) + (if parse_spec(buffers.last()) is Some {
            seq![buffers.len() - 1]
        } else {
            Seq::empty()
        })
    }
}

/// Law: every kept position indexes the caller's gallery.
pub proof fn lemma_kept_indices_bounds(buffers: Seq<Seq<u8>>)
    ensures
        forall|j: int|
            0 <= j < kept_indices_spec(buffers).len() ==> 0 <= #[trigger] kept_indices_spec(
                buffers,
            )[j] < buffers.len(),
    decreases buffers.len(),
{
    if buffers.len() > 0 {
        lemma_kept_indices_bounds(buffers.drop_last());
        let prefix = kept_indices_spec(buffers.drop_last());
        assert forall|j: int| 0 <= j < kept_indices_spec(buffers).len() implies 0
            <= #[trigger] kept_indices_spec(buffers)[j] < buffers.len() by {
            if j < prefix.len() {
                assert(kept_indices_spec(buffers)[j] == prefix[j]);
                assert(0 <= prefix[j] < buffers.drop_last().len());
            } else {
                assert(kept_indices_spec(buffers)[j] == buffers.len() - 1);
            }
        }
    }
}

/// Law: the reconstructed gallery and the kept positions pace each
/// other, so every index into the reconstructed gallery - in particular
/// a native match offset - has exactly one caller-side position.
pub proof fn lemma_kept_indices_len(buffers: Seq<Seq<u8>>)
    ensures
        kept_indices_spec(buffers).len() == parse_gallery_spec(buffers).len(),
    decreases buffers.len(),
{
    if buffers.len() > 0 {
        lemma_kept_indices_len(buffers.drop_last());
    }
}

/// Computes the caller-side positions of the gallery buffers that
/// parse, in the caller-supplied order.
pub fn gallery_indices(buffers: &Vec<Vec<u8>>) -> (r: Vec<usize>)
    ensures
        r@.map_values(|x: usize| x as int) == kept_indices_spec(gallery_views(buffers@)),
{
    let ghost g: Seq<Seq<u8>> = gallery_views(buffers@);
    let mut out: Vec<usize> = Vec::new();
    let mut i: usize = 0;
    proof {
        assert(g.take(0) =~= Seq::<Seq<u8>>::empty());
        assert(out@.map_values(|x: usize| x as int) =~= kept_indices_spec(g.take(0)));
    }
    while i < buffers.len()
        invariant
            0 <= i <= buffers@.len(),
            g == gallery_views(buffers@),
            out@.map_values(|x: usize| x as int) == kept_indices_spec(g.take(i as int)),
        decreases buffers@.len() - i,
    {
        let ghost prev: Seq<int> = out@.map_values(|x: usize| x as int);
        if buffers[i].len() >= 7 {
            out.push(i);
            proof {
                assert(out@.map_values(|x: usize| x as int) =~= prev + seq![i as int]);
            }
        }
        proof {
            assert(g.take(i + 1).drop_last() =~= g.take(i as int));
            assert(g.take(i + 1).last() == buffers@[i as int]@);
            assert(out@.map_values(|x: usize| x as int) =~= kept_indices_spec(g.take(i + 1)));
        }
        i += 1;
    }
    proof {
        assert(g.take(buffers@.len() as int) =~= g);
    }
    out
}

/// Reconstructs each gallery entry from its byte buffer, keeping the
/// well-formed templates in the caller-supplied order and skipping
/// malformed buffers, ready to be matched against one identification
/// scan.
pub fn build_gallery(buffers: &Vec<Vec<u8>>) -> (r: Vec<PrintData>)
    ensures
        r@.map_values(|p: PrintData| p@) == parse_gallery_spec(gallery_views(buffers@)),
{
    let ghost g: Seq<Seq<u8>> = gallery_views(buffers@);
    let mut out: Vec<PrintData> = Vec::new();
    let mut i: usize = 0;
    proof {
        assert(g.take(0) =~= Seq::<Seq<u8>>::empty());
        assert(out@.map_values(|p: PrintData| p@) =~= parse_gallery_spec(g.take(0)));
    }
    while i < buffers.len()
        invariant
            0 <= i <= buffers@.len(),
            g == gallery_views(buffers@),
            out@.map_values(|p: PrintData| p@) == parse_gallery_spec(g.take(i as int)),
        decreases buffers@.len() - i,
    {
        let ghost prev: Seq<PrintView> = out@.map_values(|p: PrintData| p@);
        match PrintData::from_bytes(&buffers[i]) {
            Ok(p) => {
                out.push(p);
                proof {
                    assert(out@.map_values(|q: PrintData| q@) =~= prev + seq![p@]);
                }
            },
            Err(_) => {
            },
        }
        proof {
            assert(g.take(i + 1).drop_last() =~= g.take(i as int));
            assert(g.take(i + 1).last() == buffers@[i as int]@);
            assert(out@.map_values(|q: PrintData| q@) =~= parse_gallery_spec(g.take(i + 1)));
        }
        i += 1;
    }
    proof {
        assert(g.take(buffers@.len() as int) =~= g);
    }
    out
}

/// Law: serializing a template that carries a payload and parsing the
/// buffer back yields the very same template, so a stored buffer loses
/// nothing.
pub proof fn lemma_print_data_roundtrip(v: PrintView)
    requires
        v.data.len() > 0,
    ensures
        parse_spec(serialized_spec(v)) == Some(v),
{
    lemma_auto_spec_u16_to_from_le_bytes();
    lemma_auto_spec_u32_to_from_le_bytes();
    let s = serialized_spec(v);
    assert(s.subrange(0, 2) =~= spec_u16_to_le_bytes(v.driver_id));
    assert(s.subrange(2, 6) =~= spec_u32_to_le_bytes(v.devtype));
    assert(s.skip(6) =~= v.data);
    assert(parse_spec(s)->Some_0 =~= v);
}

/// Law: parsing a well-formed buffer and serializing the result
/// reproduces the buffer byte for byte, so `as_bytes` after `from_bytes`
/// is the identity on stored buffers.
pub proof fn lemma_print_bytes_roundtrip(b: Seq<u8>)
    requires
        b.len() >= 7,
    ensures
        parse_spec(b) matches Some(v) && serialized_spec(v) == b,
{
    lemma_auto_spec_u16_to_from_le_bytes();
    lemma_auto_spec_u32_to_from_le_bytes();
    let v = parse_spec(b)->Some_0;
    assert(spec_u16_to_le_bytes(v.driver_id) == b.subrange(0, 2));
    assert(spec_u32_to_le_bytes(v.devtype) == b.subrange(2, 6));
    assert(serialized_spec(v) =~= b);
}

} // verus!
