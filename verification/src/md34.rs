//! Files of the chunked model format that start with `MD34`.
//!
//! Such a file has a single body: the model record, which the header
//! refers to. Every collection of the model is reached from a reference of
//! that record, and references inside the collections are followed in turn,
//! until the model holds no reference that has not been resolved. A version
//! without a layout fails the whole decode, since nothing behind it can be
//! trusted.

use vstd::prelude::*;
use crate::container::{
    bone_warnings, check_bones, indexed_refusal, name_all, resolve_indexed, resolve_names,
    resolve_text, table_of, table_run, text_bytes, text_position, views, Named, Naming, Resolved,
    ResolvedView, HEADER_SIZE,
};
use crate::error::{Collection, DecodeError, Warning};
use crate::m3::{
    AttachmentData, Bat, Bone, DivisionData, Header, IndexEntry, MaterialReference, Region, Vertex,
};
use crate::modl::ModelData;
use crate::primitives::{starts_with, Cursor};
use crate::reference::{
    read_whole, resolvable, resolve, resolve_refusal, Addressing, Budget, Record, Reference,
};
use crate::text::{text_of, well_formed_text, Encoding};

verus! {

/// The magic tag of the format, as it stands in a file: `MD34` read as a
/// little-endian number.
pub open spec fn magic() -> Seq<u8> {
    seq![0x34u8, 0x33, 0x44, 0x4D]
}

impl Named for AttachmentData {
    open spec fn spec_name_ref(&self) -> Reference {
        self.name
    }

    fn name_ref(&self) -> (r: Reference) {
        self.name
    }
}

// ---------------------------------------------------------------------
// Walking the references
// ---------------------------------------------------------------------

/// Where a walk through the references of a file stands: the budget that
/// is left, the warnings so far, and the failure that ended the walk.
pub struct Walk {
    pub budget: Budget,
    pub warnings: Seq<Warning>,
    pub failure: Option<DecodeError>,
}

impl Walk {
    /// Whether every reference so far could be resolved.
    pub open spec fn ok(self) -> bool {
        self.failure.is_none()
    }

    /// The walk that has failed with `e`.
    pub open spec fn failed(self, e: DecodeError) -> Walk {
        Walk { budget: self.budget, warnings: self.warnings, failure: Some(e) }
    }

    /// The walk, failed with `e` unless `holds`.
    pub open spec fn demand(self, holds: bool, e: DecodeError) -> Walk {
        if !self.ok() || holds {
            self
        } else {
            self.failed(e)
        }
    }

    /// The walk after a reference into the tag index was resolved into
    /// records of type `T`.
    pub open spec fn run<T: Record>(
        self,
        length: nat,
        table: Seq<IndexEntry>,
        reference: Reference,
    ) -> Walk {
        if !self.ok() {
            self
        } else {
            match indexed_refusal::<T>(length, table, reference, self.budget) {
                Some(e) => self.failed(e),
                None => Walk {
                    budget: self.budget.charged(reference.entries as nat),
                    warnings: self.warnings,
                    failure: None,
                },
            }
        }
    }

    /// The walk after the names of `records` were resolved.
    pub open spec fn names<T: Named>(
        self,
        data: Seq<u8>,
        table: Seq<IndexEntry>,
        records: Seq<T>,
    ) -> Walk {
        if !self.ok() {
            self
        } else {
            match name_all(data, table, records, records.len(), self.naming::<T>()) {
                Err(e) => self.failed(e),
                Ok(named) => Walk {
                    budget: named.budget,
                    warnings: named.warnings,
                    failure: None,
                },
            }
        }
    }

    /// The walk as the start of a naming.
    pub open spec fn naming<T>(self) -> Naming<T> {
        Naming { items: Seq::empty(), warnings: self.warnings, budget: self.budget }
    }

    /// The walk after a text was resolved: the budget is charged with the
    /// bytes of the text, and malformed text adds a warning.
    pub open spec fn text(
        self,
        data: Seq<u8>,
        table: Seq<IndexEntry>,
        reference: Reference,
    ) -> Walk {
        if !self.ok() {
            self
        } else {
            match indexed_refusal::<u8>(data.len(), table, reference, self.budget) {
                Some(e) => self.failed(e),
                None => Walk {
                    budget: self.budget.charged(reference.entries as nat),
                    warnings: if well_formed_text(
                        text_bytes(data, table, reference),
                        Encoding::Utf8,
                    ) {
                        self.warnings
                    } else {
                        self.warnings.push(
                            Warning::TextSubstitution { position: text_position(table, reference) },
                        )
                    },
                    failure: None,
                },
            }
        }
    }
}

/// The records that a reference into the tag index names.
pub open spec fn indexed_records<T: Record>(
    data: Seq<u8>,
    table: Seq<IndexEntry>,
    reference: Reference,
) -> Seq<T> {
    if reference.entries == 0 {
        Seq::empty()
    } else {
        let entry = table[reference.index as int];
        Seq::new(
            reference.entries as nat,
            |i: int| T::value_at(data, entry.offset + i * T::stride(entry.version), entry.version),
        )
    }
}

/// The records of `records`, each with the name that its name reference
/// stands for.
pub open spec fn names_of<T: Named>(
    data: Seq<u8>,
    table: Seq<IndexEntry>,
    records: Seq<T>,
) -> Seq<ResolvedView<T>> {
    Seq::new(
        records.len(),
        |i: int|
            ResolvedView {
                record: records[i],
                name: text_of(text_bytes(data, table, records[i].spec_name_ref()), Encoding::Utf8),
            },
    )
}

/// Where names can be resolved, the named records are the records, each
/// with the name that its reference stands for.
pub proof fn lemma_named_items<T: Named>(
    data: Seq<u8>,
    table: Seq<IndexEntry>,
    records: Seq<T>,
    k: nat,
    start: Naming<T>,
)
    requires
        k <= records.len(),
        name_all(data, table, records, k, start).is_ok(),
    ensures
        name_all(data, table, records, k, start).unwrap().items == start.items + names_of(
            data,
            table,
            records,
        ).take(k as int),
    decreases k,
{
    let all = names_of(data, table, records);
    if k == 0 {
        assert(start.items =~= start.items + all.take(0));
    } else {
        lemma_named_items(data, table, records, (k - 1) as nat, start);
        let before = name_all(data, table, records, (k - 1) as nat, start).unwrap();
        let after = name_all(data, table, records, k, start).unwrap();
        assert(after.items == before.items.push(all[k - 1]));
        assert(after.items =~= start.items + all.take(k as int));
    }
}

/// Resolves a reference into the tag index.
fn follow<T: Record>(
    buf: &[u8],
    table: &[IndexEntry],
    reference: &Reference,
    budget: &mut Budget,
) -> (r: Result<Vec<T>, DecodeError>)
    ensures
        match r {
            Ok(records) => {
                &&& indexed_refusal::<T>(buf@.len(), table@, *reference, *old(budget)).is_none()
                &&& records@ == indexed_records::<T>(buf@, table@, *reference)
                &&& *final(budget) == old(budget).charged(reference.entries as nat)
            },
            Err(e) => {
                &&& indexed_refusal::<T>(buf@.len(), table@, *reference, *old(budget)) == Some(e)
                &&& *final(budget) == *old(budget)
            },
        },
{
    let records = resolve_indexed::<T>(buf, table, reference, budget)?;
    assert(records@ =~= indexed_records::<T>(buf@, table@, *reference));
    Ok(records)
}

/// Resolves a reference into the tag index and the names of the records
/// it names.
fn follow_named<T: Named + Copy>(
    buf: &[u8],
    table: &[IndexEntry],
    reference: &Reference,
    warnings: &mut Vec<Warning>,
    budget: &mut Budget,
) -> (r: Result<Vec<Resolved<T>>, DecodeError>)
    ensures
        ({
            let w = Walk { budget: *old(budget), warnings: old(warnings)@, failure: None };
            let records = indexed_records::<T>(buf@, table@, *reference);
            let w1 = w.run::<T>(buf@.len(), table@, *reference);
            let w2 = w1.names(buf@, table@, records);
            match r {
                Ok(items) => {
                    &&& w2 == (Walk {
                        budget: *final(budget),
                        warnings: final(warnings)@,
                        failure: None,
                    })
                    &&& views(items@) == names_of(buf@, table@, records)
                },
                Err(e) => w2.failure == Some(e),
            }
        }),
{
    let records = follow::<T>(buf, table, reference, budget)?;
    let ghost start = Naming::<T> { items: Seq::empty(), warnings: warnings@, budget: *budget };
    let items = resolve_names(buf, table, &records, warnings, budget)?;
    proof {
        lemma_named_items(buf@, table@, records@, records@.len(), start);
        let all = names_of(buf@, table@, records@);
        assert(all.take(records@.len() as int) =~= all);
        assert(start.items + all =~= all);
    }
    Ok(items)
}

// ---------------------------------------------------------------------
// The mesh
// ---------------------------------------------------------------------

/// The run of vertices that a model record names. The reference of the
/// record counts bytes; the flags word of the record selects the layout of
/// a vertex, and with it the number of vertices that the bytes hold.
pub open spec fn vertex_run(table: Seq<IndexEntry>, body: ModelData) -> Reference {
    let reference = body.spec_vertices();
    Reference {
        entries: (reference.entries as int / Vertex::stride(body.spec_vflags().bits) as int) as u32,
        index: table[reference.index as int].offset,
        flags: 0,
    }
}

/// The error with which the vertices of a model are refused, or `None`
/// where they can be decoded. A model without vertex bytes has no
/// vertices. Otherwise the reference has to name a line of the tag index
/// (`ReferenceOutOfBounds`), the flags word has to select a layout
/// (`UnsupportedVersion`), and the vertices have to be resolvable.
pub open spec fn vertex_refusal(
    length: nat,
    table: Seq<IndexEntry>,
    body: ModelData,
    budget: Budget,
) -> Option<DecodeError> {
    let reference = body.spec_vertices();
    let format = body.spec_vflags().bits;
    let addressing = Addressing::ByteOffset { base: 0 };
    if reference.entries == 0 {
        None
    } else if reference.index >= table.len() {
        Some(
            DecodeError::ReferenceOutOfBounds {
                offset: reference.index as u64,
                length: table.len() as u64,
            },
        )
    } else if resolvable::<Vertex>(length, vertex_run(table, body), addressing, format, budget) {
        None
    } else {
        Some(resolve_refusal::<Vertex>(length, vertex_run(table, body), addressing, format, budget))
    }
}

/// The vertices of a model.
pub open spec fn vertices_of(
    data: Seq<u8>,
    table: Seq<IndexEntry>,
    body: ModelData,
) -> Seq<Vertex> {
    if body.spec_vertices().entries == 0 {
        Seq::empty()
    } else {
        let run = vertex_run(table, body);
        let format = body.spec_vflags().bits;
        Seq::new(
            run.entries as nat,
            |i: int| Vertex::value_at(data, run.index + i * Vertex::stride(format), format),
        )
    }
}

/// The walk after the vertices of a model were decoded.
pub open spec fn walk_vertices(
    length: nat,
    table: Seq<IndexEntry>,
    body: ModelData,
    w: Walk,
) -> Walk {
    if !w.ok() {
        w
    } else {
        match vertex_refusal(length, table, body, w.budget) {
            Some(e) => w.failed(e),
            None => Walk {
                budget: if body.spec_vertices().entries == 0 {
                    w.budget
                } else {
                    w.budget.charged(vertex_run(table, body).entries as nat)
                },
                warnings: w.warnings,
                failure: None,
            },
        }
    }
}

/// Decodes the vertices of a model.
fn follow_vertices(buf: &[u8], table: &[IndexEntry], body: &ModelData, budget: &mut Budget) -> (r:
    Result<Vec<Vertex>, DecodeError>)
    ensures
        match r {
            Ok(vertices) => {
                &&& vertex_refusal(buf@.len(), table@, *body, *old(budget)).is_none()
                &&& vertices@ == vertices_of(buf@, table@, *body)
                &&& *final(budget) == if body.spec_vertices().entries == 0 {
                    *old(budget)
                } else {
                    old(budget).charged(vertex_run(table@, *body).entries as nat)
                }
            },
            Err(e) => {
                &&& vertex_refusal(buf@.len(), table@, *body, *old(budget)) == Some(e)
                &&& *final(budget) == *old(budget)
            },
        },
{
    let reference = body.vertices();
    let format = body.vflags().bits;
    if reference.entries == 0 {
        return Ok(Vec::new());
    }
    if reference.index as usize >= table.len() {
        return Err(
            DecodeError::ReferenceOutOfBounds {
                offset: reference.index as u64,
                length: table.len() as u64,
            },
        );
    }
    let entry = &table[reference.index as usize];
    let stride = match Vertex::width(format) {
        Some(stride) => stride,
        None => {
            return Err(
                DecodeError::UnsupportedVersion {
                    got: format,
                    supported_range: Vertex::range(),
                },
            );
        },
    };
    proof {
        Vertex::lemma_layout(format);
    }
    let run = Reference {
        entries: reference.entries / stride as u32,
        index: entry.offset,
        flags: 0,
    };
    let vertices = resolve::<Vertex>(
        buf,
        &run,
        Addressing::ByteOffset { base: 0 },
        format,
        budget,
    )?;
    assert(vertices@ =~= vertices_of(buf@, table@, *body));
    Ok(vertices)
}

/// A division of the mesh with its references resolved.
#[derive(Clone, Debug, PartialEq, Eq)]
pub struct Division {
    pub data: DivisionData,
    pub faces: Vec<u16>,
    pub regions: Vec<Region>,
    pub objects: Vec<Bat>,
}

/// What a `Division` stands for.
pub struct DivisionView {
    pub data: DivisionData,
    pub faces: Seq<u16>,
    pub regions: Seq<Region>,
    pub objects: Seq<Bat>,
}

impl View for Division {
    type V = DivisionView;

    open spec fn view(&self) -> DivisionView {
        DivisionView {
            data: self.data,
            faces: self.faces@,
            regions: self.regions@,
            objects: self.objects@,
        }
    }
}

/// The views of a sequence of divisions.
pub open spec fn division_views(items: Seq<Division>) -> Seq<DivisionView> {
    Seq::new(items.len(), |i: int| items[i]@)
}

/// The division that a record of references resolves to.
pub open spec fn division_of(
    data: Seq<u8>,
    table: Seq<IndexEntry>,
    record: DivisionData,
) -> DivisionView {
    DivisionView {
        data: record,
        faces: indexed_records::<u16>(data, table, record.faces),
        regions: indexed_records::<Region>(data, table, record.regions),
        objects: indexed_records::<Bat>(data, table, record.objects),
    }
}

/// The walk after the references of one division were resolved: its face
/// indices, its regions, its objects.
pub open spec fn walk_division(
    length: nat,
    table: Seq<IndexEntry>,
    record: DivisionData,
    w: Walk,
) -> Walk {
    w.run::<u16>(length, table, record.faces).run::<Region>(length, table, record.regions).run::<
        Bat,
    >(length, table, record.objects)
}

/// The walk after the first `k` divisions were resolved.
pub open spec fn walk_divisions(
    length: nat,
    table: Seq<IndexEntry>,
    records: Seq<DivisionData>,
    k: nat,
    w: Walk,
) -> Walk
    decreases k,
{
    if k == 0 {
        w
    } else {
        walk_division(
            length,
            table,
            records[k - 1],
            walk_divisions(length, table, records, (k - 1) as nat, w),
        )
    }
}

/// The divisions that `records` resolve to.
pub open spec fn divisions_of(
    data: Seq<u8>,
    table: Seq<IndexEntry>,
    records: Seq<DivisionData>,
) -> Seq<DivisionView> {
    Seq::new(records.len(), |i: int| division_of(data, table, records[i]))
}

/// A walk that has failed stays failed, whatever divisions follow.
pub proof fn lemma_divisions_fail(
    length: nat,
    table: Seq<IndexEntry>,
    records: Seq<DivisionData>,
    k: nat,
    n: nat,
    w: Walk,
)
    requires
        k <= n,
        !walk_divisions(length, table, records, k, w).ok(),
    ensures
        walk_divisions(
            length,
            table,
            records,
            n,
            w,
        ) == walk_divisions(length, table, records, k, w),
    decreases n,
{
    if k < n {
        lemma_divisions_fail(length, table, records, k, (n - 1) as nat, w);
    }
}

/// Resolves the references of one division.
fn follow_division(
    buf: &[u8],
    table: &[IndexEntry],
    record: &DivisionData,
    budget: &mut Budget,
) -> (r:
    Result<Division, DecodeError>)
    ensures
        ({
            let w = Walk { budget: *old(budget), warnings: Seq::empty(), failure: None };
            let after = walk_division(buf@.len(), table@, *record, w);
            match r {
                Ok(division) => {
                    &&& after == (Walk {
                        budget: *final(budget),
                        warnings: Seq::empty(),
                        failure: None,
                    })
                    &&& division@ == division_of(buf@, table@, *record)
                },
                Err(e) => after.failure == Some(e),
            }
        }),
{
    let faces = follow::<u16>(buf, table, &record.faces, budget)?;
    let regions = follow::<Region>(buf, table, &record.regions, budget)?;
    let objects = follow::<Bat>(buf, table, &record.objects, budget)?;
    Ok(Division { data: *record, faces, regions, objects })
}

/// The walk `w` with the budget and the failure of `other`. A walk
/// through divisions adds no warnings, so that what it does to a walk
/// with warnings can be read off what it does to one without.
pub open spec fn carried(w: Walk, other: Walk) -> Walk {
    Walk { budget: other.budget, warnings: w.warnings, failure: other.failure }
}

/// Walking through divisions leaves the warnings as they are.
pub proof fn lemma_divisions_carry(
    length: nat,
    table: Seq<IndexEntry>,
    records: Seq<DivisionData>,
    k: nat,
    w: Walk,
)
    requires
        w.ok(),
    ensures
        walk_divisions(length, table, records, k, w) == carried(
            w,
            walk_divisions(
                length,
                table,
                records,
                k,
                Walk { budget: w.budget, warnings: Seq::empty(), failure: None },
            ),
        ),
    decreases k,
{
    if k > 0 {
        lemma_divisions_carry(length, table, records, (k - 1) as nat, w);
    }
}

/// Resolves the references of every division.
fn follow_divisions(
    buf: &[u8],
    table: &[IndexEntry],
    records: &Vec<DivisionData>,
    budget: &mut Budget,
) -> (r: Result<Vec<Division>, DecodeError>)
    ensures
        ({
            let w = Walk { budget: *old(budget), warnings: Seq::empty(), failure: None };
            let after = walk_divisions(buf@.len(), table@, records@, records@.len(), w);
            match r {
                Ok(divisions) => {
                    &&& after == (Walk {
                        budget: *final(budget),
                        warnings: Seq::empty(),
                        failure: None,
                    })
                    &&& division_views(divisions@) == divisions_of(buf@, table@, records@)
                },
                Err(e) => after.failure == Some(e),
            }
        }),
{
    let ghost w = Walk { budget: *budget, warnings: Seq::empty(), failure: None };
    let mut divisions: Vec<Division> = Vec::new();
    let mut i: usize = 0;
    while i < records.len()
        invariant
            i <= records@.len(),
            divisions@.len() == i,
            w == (Walk { budget: *old(budget), warnings: Seq::empty(), failure: None }),
            walk_divisions(buf@.len(), table@, records@, i as nat, w) == (Walk {
                budget: *budget,
                warnings: Seq::empty(),
                failure: None,
            }),
            forall|k: int|
                0 <= k < i ==> (
                    #[trigger] divisions@[k]
                )@ == division_of(buf@, table@, records@[k]),
        decreases records@.len() - i,
    {
        let division = match follow_division(buf, table, &records[i], budget) {
            Ok(division) => division,
            Err(e) => {
                proof {
                    assert(walk_divisions(buf@.len(), table@, records@, (i + 1) as nat, w).failure
                        == Some(e));
                    lemma_divisions_fail(
                        buf@.len(),
                        table@,
                        records@,
                        (i + 1) as nat,
                        records@.len(),
                        w,
                    );
                }
                return Err(e);
            },
        };
        divisions.push(division);
        i = i + 1;
    }
    assert(division_views(divisions@) =~= divisions_of(buf@, table@, records@));
    Ok(divisions)
}

// ---------------------------------------------------------------------
// The model
// ---------------------------------------------------------------------

/// A decoded file.
#[derive(Clone, Debug, PartialEq, Eq)]
pub struct Model {
    pub header: Header,
    pub data: ModelData,
    pub name: String,
    pub bones: Vec<Resolved<Bone>>,
    pub bone_lookup: Vec<u16>,
    pub vertices: Vec<Vertex>,
    pub divisions: Vec<Division>,
    pub attachments: Vec<Resolved<AttachmentData>>,
    pub material_references: Vec<MaterialReference>,
}

/// What a `Model` stands for.
pub struct ModelView {
    pub header: Header,
    pub data: ModelData,
    pub name: Seq<char>,
    pub bones: Seq<ResolvedView<Bone>>,
    pub bone_lookup: Seq<u16>,
    pub vertices: Seq<Vertex>,
    pub divisions: Seq<DivisionView>,
    pub attachments: Seq<ResolvedView<AttachmentData>>,
    pub material_references: Seq<MaterialReference>,
}

impl View for Model {
    type V = ModelView;

    open spec fn view(&self) -> ModelView {
        ModelView {
            header: self.header,
            data: self.data,
            name: self.name@,
            bones: views(self.bones@),
            bone_lookup: self.bone_lookup@,
            vertices: self.vertices@,
            divisions: division_views(self.divisions@),
            attachments: views(self.attachments@),
            material_references: self.material_references@,
        }
    }
}

/// What a file opens with: the header, the tag index, and the budget that
/// is left once the index is read. The file has to start with the magic
/// tag (`BadMagic`) and hold a whole header (`UnexpectedEof`); the index
/// has to lie inside the file (`ReferenceOutOfBounds`) and under the
/// ceiling (`RecordLimitExceeded`).
pub open spec fn opening(data: Seq<u8>, limit: u64) -> Result<
    (Header, Seq<IndexEntry>, Budget),
    DecodeError,
> {
    let fresh = Budget { limit, used: 0 };
    let addressing = Addressing::ByteOffset { base: 0 };
    if !starts_with(data, magic()) {
        Err(DecodeError::BadMagic)
    } else if data.len() < HEADER_SIZE {
        Err(DecodeError::UnexpectedEof)
    } else {
        let header = Header::value_at(data, 0, 0);
        if !resolvable::<IndexEntry>(data.len(), table_run(header), addressing, 0, fresh) {
            Err(resolve_refusal::<IndexEntry>(data.len(), table_run(header), addressing, 0, fresh))
        } else {
            Ok((header, table_of(data, header), fresh.charged(header.index_size as nat)))
        }
    }
}

/// Reads the header and the tag index of a file.
fn open(bytes: &[u8], limit: u64) -> (r: Result<(Header, Vec<IndexEntry>, Budget), DecodeError>)
    ensures
        match r {
            Ok((header, table, budget)) => opening(bytes@, limit) == Ok::<
                (Header, Seq<IndexEntry>, Budget),
                DecodeError,
            >((header, table@, budget)),
            Err(e) => opening(bytes@, limit) == Err::<(
                Header,
                Seq<IndexEntry>,
                Budget,
            ), DecodeError>(
                e,
            ),
        },
{
    let mut cur = Cursor::new(bytes);
    let tag: [u8; 4] = [0x34, 0x33, 0x44, 0x4D];
    assert(tag@ =~= magic());
    cur.expect_tag(tag.as_slice())?;
    cur.seek(0);
    let header = read_whole::<Header>(&mut cur, 0)?;
    let mut budget = Budget::new(limit);
    let run = Reference { entries: header.index_size, index: header.index_offset, flags: 0 };
    let table: Vec<IndexEntry> = resolve::<IndexEntry>(
        bytes,
        &run,
        Addressing::ByteOffset { base: 0 },
        0,
        &mut budget,
    )?;
    assert(table@ =~= table_of(bytes@, header));
    Ok((header, table, budget))
}

/// The model record of a file: the first record that the header refers
/// to.
pub open spec fn body_of(data: Seq<u8>, table: Seq<IndexEntry>, header: Header) -> ModelData {
    indexed_records::<ModelData>(data, table, header.model)[0]
}

/// The walk after the model record was decoded. A header that refers to
/// no model record fails the walk with `UnexpectedEof`.
pub open spec fn walk_body(length: nat, table: Seq<IndexEntry>, header: Header, w: Walk) -> Walk {
    w.demand(header.model.entries > 0, DecodeError::UnexpectedEof).run::<ModelData>(
        length,
        table,
        header.model,
    )
}

/// The walk after the skeleton was resolved: the name of the model, the
/// bones and their names, and the bone lookup table.
pub open spec fn walk_skeleton(
    data: Seq<u8>,
    table: Seq<IndexEntry>,
    body: ModelData,
    w: Walk,
) -> Walk {
    w.text(data, table, body.spec_name()).run::<Bone>(data.len(), table, body.spec_bones()).names(
        data,
        table,
        indexed_records::<Bone>(data, table, body.spec_bones()),
    ).run::<u16>(data.len(), table, body.spec_bone_lookup())
}

/// The walk after the mesh was resolved: the vertices, the divisions, and
/// what the divisions refer to.
pub open spec fn walk_mesh(
    data: Seq<u8>,
    table: Seq<IndexEntry>,
    body: ModelData,
    w: Walk,
) -> Walk {
    let records = indexed_records::<DivisionData>(data, table, body.spec_divisions());
    walk_divisions(
        data.len(),
        table,
        records,
        records.len(),
        walk_vertices(data.len(), table, body, w).run::<DivisionData>(
            data.len(),
            table,
            body.spec_divisions(),
        ),
    )
}

/// The walk after the attachment points, their names and the material
/// references were resolved.
pub open spec fn walk_rest(
    data: Seq<u8>,
    table: Seq<IndexEntry>,
    body: ModelData,
    w: Walk,
) -> Walk {
    w.run::<AttachmentData>(data.len(), table, body.spec_attachment_points()).names(
        data,
        table,
        indexed_records::<AttachmentData>(data, table, body.spec_attachment_points()),
    ).run::<MaterialReference>(data.len(), table, body.spec_material_references())
}

/// The model that the references of a file resolve to.
pub open spec fn model_of(data: Seq<u8>, table: Seq<IndexEntry>, header: Header) -> ModelView {
    let body = body_of(data, table, header);
    ModelView {
        header,
        data: body,
        name: text_of(text_bytes(data, table, body.spec_name()), Encoding::Utf8),
        bones: names_of(data, table, indexed_records::<Bone>(data, table, body.spec_bones())),
        bone_lookup: indexed_records::<u16>(data, table, body.spec_bone_lookup()),
        vertices: vertices_of(data, table, body),
        divisions: divisions_of(
            data,
            table,
            indexed_records::<DivisionData>(data, table, body.spec_divisions()),
        ),
        attachments: names_of(
            data,
            table,
            indexed_records::<AttachmentData>(data, table, body.spec_attachment_points()),
        ),
        material_references: indexed_records::<MaterialReference>(
            data,
            table,
            body.spec_material_references(),
        ),
    }
}

/// Decodes the model record.
fn follow_body(
    buf: &[u8],
    table: &[IndexEntry],
    header: &Header,
    budget: &mut Budget,
) -> (r: Result<
    ModelData,
    DecodeError,
>)
    ensures
        ({
            let w = Walk { budget: *old(budget), warnings: Seq::empty(), failure: None };
            let after = walk_body(buf@.len(), table@, *header, w);
            match r {
                Ok(body) => {
                    &&& after == (Walk {
                        budget: *final(budget),
                        warnings: Seq::empty(),
                        failure: None,
                    })
                    &&& body == body_of(buf@, table@, *header)
                },
                Err(e) => after.failure == Some(e),
            }
        }),
{
    if header.model.entries == 0 {
        return Err(DecodeError::UnexpectedEof);
    }
    let records = follow::<ModelData>(buf, table, &header.model, budget)?;
    Ok(records[0])
}

/// The parts of a model that make up its skeleton.
struct Skeleton {
    name: String,
    bones: Vec<Resolved<Bone>>,
    bone_lookup: Vec<u16>,
}

/// Resolves the name of the model, the bones and the bone lookup table.
fn follow_skeleton(
    buf: &[u8],
    table: &[IndexEntry],
    body: &ModelData,
    warnings: &mut Vec<Warning>,
    budget: &mut Budget,
) -> (r: Result<Skeleton, DecodeError>)
    ensures
        ({
            let w = Walk { budget: *old(budget), warnings: old(warnings)@, failure: None };
            let after = walk_skeleton(buf@, table@, *body, w);
            match r {
                Ok(skeleton) => {
                    &&& after == (Walk {
                        budget: *final(budget),
                        warnings: final(warnings)@,
                        failure: None,
                    })
                    &&& skeleton.name@ == text_of(
                        text_bytes(buf@, table@, body.spec_name()),
                        Encoding::Utf8,
                    )
                    &&& views(skeleton.bones@) == names_of(
                        buf@,
                        table@,
                        indexed_records::<Bone>(buf@, table@, body.spec_bones()),
                    )
                    &&& skeleton.bone_lookup@ == indexed_records::<u16>(
                        buf@,
                        table@,
                        body.spec_bone_lookup(),
                    )
                },
                Err(e) => after.failure == Some(e),
            }
        }),
{
    let text = resolve_text(buf, table, &body.name(), budget)?;
    if text.substituted {
        warnings.push(Warning::TextSubstitution { position: text.offset });
    }
    let bones = follow_named::<Bone>(buf, table, &body.bones(), warnings, budget)?;
    let bone_lookup = follow::<u16>(buf, table, &body.bone_lookup(), budget)?;
    Ok(Skeleton { name: text.value, bones, bone_lookup })
}

/// The parts of a model that make up its mesh.
struct Mesh {
    vertices: Vec<Vertex>,
    divisions: Vec<Division>,
}

/// Resolves the vertices and the divisions.
fn follow_mesh(
    buf: &[u8],
    table: &[IndexEntry],
    body: &ModelData,
    Ghost(warnings): Ghost<Seq<Warning>>,
    budget: &mut Budget,
) -> (r: Result<Mesh, DecodeError>)
    ensures
        ({
            let w = Walk { budget: *old(budget), warnings, failure: None };
            let after = walk_mesh(buf@, table@, *body, w);
            match r {
                Ok(mesh) => {
                    &&& after == (Walk { budget: *final(budget), warnings, failure: None })
                    &&& mesh.vertices@ == vertices_of(buf@, table@, *body)
                    &&& division_views(mesh.divisions@) == divisions_of(
                        buf@,
                        table@,
                        indexed_records::<DivisionData>(buf@, table@, body.spec_divisions()),
                    )
                },
                Err(e) => after.failure == Some(e),
            }
        }),
{
    let ghost w = Walk { budget: *budget, warnings, failure: None };
    let ghost records = indexed_records::<DivisionData>(buf@, table@, body.spec_divisions());
    let ghost length = buf@.len();
    let vertices = match follow_vertices(buf, table, body, budget) {
        Ok(vertices) => vertices,
        Err(e) => {
            proof {
                let w1 = walk_vertices(length, table@, *body, w);
                let w2 = w1.run::<DivisionData>(length, table@, body.spec_divisions());
                lemma_divisions_fail(length, table@, records, 0, records.len(), w2);
            }
            return Err(e);
        },
    };
    let ghost w1 = walk_vertices(length, table@, *body, w);
    let division_records = match follow::<DivisionData>(buf, table, &body.divisions(), budget) {
        Ok(division_records) => division_records,
        Err(e) => {
            proof {
                let w2 = w1.run::<DivisionData>(length, table@, body.spec_divisions());
                lemma_divisions_fail(length, table@, records, 0, records.len(), w2);
            }
            return Err(e);
        },
    };
    let ghost w2 = w1.run::<DivisionData>(length, table@, body.spec_divisions());
    proof {
        lemma_divisions_carry(length, table@, records, records.len(), w2);
    }
    let divisions = follow_divisions(buf, table, &division_records, budget)?;
    Ok(Mesh { vertices, divisions })
}

/// What is left of a model once skeleton and mesh are resolved.
struct Rest {
    attachments: Vec<Resolved<AttachmentData>>,
    material_references: Vec<MaterialReference>,
}

/// Resolves the attachment points and the material references.
fn follow_rest(
    buf: &[u8],
    table: &[IndexEntry],
    body: &ModelData,
    warnings: &mut Vec<Warning>,
    budget: &mut Budget,
) -> (r: Result<Rest, DecodeError>)
    ensures
        ({
            let w = Walk { budget: *old(budget), warnings: old(warnings)@, failure: None };
            let after = walk_rest(buf@, table@, *body, w);
            match r {
                Ok(rest) => {
                    &&& after == (Walk {
                        budget: *final(budget),
                        warnings: final(warnings)@,
                        failure: None,
                    })
                    &&& views(rest.attachments@) == names_of(
                        buf@,
                        table@,
                        indexed_records::<AttachmentData>(
                            buf@,
                            table@,
                            body.spec_attachment_points(),
                        ),
                    )
                    &&& rest.material_references@ == indexed_records::<MaterialReference>(
                        buf@,
                        table@,
                        body.spec_material_references(),
                    )
                },
                Err(e) => after.failure == Some(e),
            }
        }),
{
    let attachments = follow_named::<AttachmentData>(
        buf,
        table,
        &body.attachment_points(),
        warnings,
        budget,
    )?;
    let material_references = follow::<MaterialReference>(
        buf,
        table,
        &body.material_references(),
        budget,
    )?;
    Ok(Rest { attachments, material_references })
}

// ---------------------------------------------------------------------
// Checking the model
// ---------------------------------------------------------------------

/// The warnings for the first `k` of `indices`: one for every index that
/// is no position among `count` records of `target`.
pub open spec fn index_warnings(
    owner: Collection,
    target: Collection,
    indices: Seq<i64>,
    count: nat,
    k: nat,
) -> Seq<Warning>
    decreases k,
{
    if k == 0 {
        Seq::empty()
    } else {
        let before = index_warnings(owner, target, indices, count, (k - 1) as nat);
        if 0 <= indices[k - 1] < count {
            before
        } else {
            before.push(
                Warning::DanglingIndex {
                    owner,
                    record: (k - 1) as u64,
                    target,
                    index: indices[k - 1],
                },
            )
        }
    }
}

/// Appends a warning for every index that is no position among `count`
/// records.
pub fn check_indices(
    owner: Collection,
    target: Collection,
    indices: &Vec<i64>,
    count: usize,
    warnings: &mut Vec<Warning>,
)
    ensures
        final(warnings)@ == old(warnings)@ + index_warnings(
            owner,
            target,
            indices@,
            count as nat,
            indices@.len(),
        ),
{
    let mut i: usize = 0;
    assert(warnings@ =~= old(warnings)@ + index_warnings(owner, target, indices@, count as nat, 0));
    while i < indices.len()
        invariant
            i <= indices@.len(),
            warnings@ == old(warnings)@ + index_warnings(
                owner,
                target,
                indices@,
                count as nat,
                i as nat,
            ),
        decreases indices@.len() - i,
    {
        let index = indices[i];
        if !(index >= 0 && (index as u64) < count as u64) {
            warnings.push(Warning::DanglingIndex { owner, record: i as u64, target, index });
        }
        assert(warnings@ =~= old(warnings)@ + index_warnings(
            owner,
            target,
            indices@,
            count as nat,
            (i + 1) as nat,
        ));
        i = i + 1;
    }
}

/// A check that reports no index has found every index in bounds.
pub proof fn lemma_checked_indices(
    owner: Collection,
    target: Collection,
    indices: Seq<i64>,
    count: nat,
    k: nat,
)
    requires
        index_warnings(owner, target, indices, count, k).len() == 0,
    ensures
        forall|i: int| 0 <= i < k ==> 0 <= #[trigger] indices[i] < count,
    decreases k,
{
    if k > 0 {
        lemma_checked_indices(owner, target, indices, count, (k - 1) as nat);
    }
}

/// The entries of the bone lookup table as indices.
pub open spec fn lookup_indices(lookup: Seq<u16>) -> Seq<i64> {
    Seq::new(lookup.len(), |i: int| lookup[i] as i64)
}

/// The bones of the attachment points as indices.
pub open spec fn attachment_indices(attachments: Seq<ResolvedView<AttachmentData>>) -> Seq<i64> {
    Seq::new(attachments.len(), |i: int| attachments[i].record.bone as i64)
}

/// The regions of the objects of a division as indices.
pub open spec fn region_indices(objects: Seq<Bat>) -> Seq<i64> {
    Seq::new(objects.len(), |i: int| objects[i].region_index as i64)
}

/// The material references of the objects of a division as indices.
pub open spec fn material_indices(objects: Seq<Bat>) -> Seq<i64> {
    Seq::new(objects.len(), |i: int| objects[i].material_reference_index as i64)
}

/// Collects the entries of the bone lookup table as indices.
fn collect_lookup(lookup: &Vec<u16>) -> (r: Vec<i64>)
    ensures
        r@ == lookup_indices(lookup@),
{
    let mut out: Vec<i64> = Vec::new();
    let mut i: usize = 0;
    while i < lookup.len()
        invariant
            i <= lookup@.len(),
            out@.len() == i,
            forall|k: int| 0 <= k < i ==> out@[k] == lookup@[k] as i64,
        decreases lookup@.len() - i,
    {
        out.push(lookup[i] as i64);
        i = i + 1;
    }
    assert(out@ =~= lookup_indices(lookup@));
    out
}

/// Collects the bones of the attachment points as indices.
fn collect_attachments(attachments: &Vec<Resolved<AttachmentData>>) -> (r: Vec<i64>)
    ensures
        r@ == attachment_indices(views(attachments@)),
{
    let mut out: Vec<i64> = Vec::new();
    let mut i: usize = 0;
    while i < attachments.len()
        invariant
            i <= attachments@.len(),
            out@.len() == i,
            forall|k: int| 0 <= k < i ==> out@[k] == attachments@[k].record.bone as i64,
        decreases attachments@.len() - i,
    {
        out.push(attachments[i].record.bone as i64);
        i = i + 1;
    }
    assert(out@ =~= attachment_indices(views(attachments@)));
    out
}

/// Collects the regions and the material references of the objects of a
/// division as indices.
fn collect_objects(objects: &Vec<Bat>) -> (r: (Vec<i64>, Vec<i64>))
    ensures
        r.0@ == region_indices(objects@),
        r.1@ == material_indices(objects@),
{
    let mut regions: Vec<i64> = Vec::new();
    let mut materials: Vec<i64> = Vec::new();
    let mut i: usize = 0;
    while i < objects.len()
        invariant
            i <= objects@.len(),
            regions@.len() == i,
            materials@.len() == i,
            forall|k: int| 0 <= k < i ==> regions@[k] == objects@[k].region_index as i64,
            forall|k: int|
                0 <= k < i ==> materials@[k] == objects@[k].material_reference_index as i64,
        decreases objects@.len() - i,
    {
        regions.push(objects[i].region_index as i64);
        materials.push(objects[i].material_reference_index as i64);
        i = i + 1;
    }
    assert(regions@ =~= region_indices(objects@));
    assert(materials@ =~= material_indices(objects@));
    (regions, materials)
}

/// The warnings of one division: for its objects, first the regions that
/// are no region of the division, then the material references that are
/// none of the model.
pub open spec fn division_warnings(division: DivisionView, materials: nat) -> Seq<Warning> {
    index_warnings(
        Collection::Objects,
        Collection::Regions,
        region_indices(division.objects),
        division.regions.len(),
        division.objects.len(),
    ) + index_warnings(
        Collection::Objects,
        Collection::MaterialReferences,
        material_indices(division.objects),
        materials,
        division.objects.len(),
    )
}

/// The warnings of the first `k` divisions.
pub open spec fn divisions_warnings(divisions: Seq<DivisionView>, materials: nat, k: nat) -> Seq<
    Warning,
>
    decreases k,
{
    if k == 0 {
        Seq::empty()
    } else {
        divisions_warnings(divisions, materials, (k - 1) as nat) + division_warnings(
            divisions[k - 1],
            materials,
        )
    }
}

/// Checks the objects of every division.
fn check_divisions(divisions: &Vec<Division>, materials: usize, warnings: &mut Vec<Warning>)
    ensures
        final(warnings)@ == old(warnings)@ + divisions_warnings(
            division_views(divisions@),
            materials as nat,
            divisions@.len(),
        ),
{
    let ghost all = division_views(divisions@);
    let mut i: usize = 0;
    assert(warnings@ =~= old(warnings)@ + divisions_warnings(all, materials as nat, 0));
    while i < divisions.len()
        invariant
            i <= divisions@.len(),
            all == division_views(divisions@),
            warnings@ == old(warnings)@ + divisions_warnings(all, materials as nat, i as nat),
        decreases divisions@.len() - i,
    {
        let division = &divisions[i];
        let (regions, mats) = collect_objects(&division.objects);
        let ghost before = warnings@;
        check_indices(
            Collection::Objects,
            Collection::Regions,
            &regions,
            division.regions.len(),
            warnings,
        );
        check_indices(
            Collection::Objects,
            Collection::MaterialReferences,
            &mats,
            materials,
            warnings,
        );
        proof {
            assert(all[i as int] == division@);
            assert(warnings@ =~= before + division_warnings(all[i as int], materials as nat));
            assert(warnings@ =~= old(warnings)@ + divisions_warnings(
                all,
                materials as nat,
                (i + 1) as nat,
            ));
        }
        i = i + 1;
    }
}

/// The warnings `before`, followed by those of the check of a model: the
/// flags and parents of the bones; the entries of the bone lookup table
/// that are no bone; the attachment points whose bone is no bone; and the
/// objects of the divisions.
pub open spec fn checked(before: Seq<Warning>, model: ModelView) -> Seq<Warning> {
    before + bone_warnings(model.bones, model.bones.len()) + index_warnings(
        Collection::BoneLookup,
        Collection::Bones,
        lookup_indices(model.bone_lookup),
        model.bones.len(),
        model.bone_lookup.len(),
    ) + index_warnings(
        Collection::Attachments,
        Collection::Bones,
        attachment_indices(model.attachments),
        model.bones.len(),
        model.attachments.len(),
    ) + divisions_warnings(model.divisions, model.material_references.len(), model.divisions.len())
}

/// Checks every index that a record of the model holds into a collection
/// of the model, and appends a warning for each that points nowhere.
pub fn check_model(model: &Model, warnings: &mut Vec<Warning>)
    ensures
        final(warnings)@ == checked(old(warnings)@, model@),
{
    check_bones(&model.bones, warnings);
    let lookup = collect_lookup(&model.bone_lookup);
    check_indices(Collection::BoneLookup, Collection::Bones, &lookup, model.bones.len(), warnings);
    let attached = collect_attachments(&model.attachments);
    check_indices(
        Collection::Attachments,
        Collection::Bones,
        &attached,
        model.bones.len(),
        warnings,
    );
    check_divisions(&model.divisions, model.material_references.len(), warnings);
}

// ---------------------------------------------------------------------
// Decoding
// ---------------------------------------------------------------------

/// The walk through all references of a file.
pub open spec fn walked(
    data: Seq<u8>,
    table: Seq<IndexEntry>,
    header: Header,
    budget: Budget,
) -> Walk {
    let body = body_of(data, table, header);
    let start = Walk { budget, warnings: Seq::empty(), failure: None };
    walk_rest(
        data,
        table,
        body,
        walk_mesh(
            data,
            table,
            body,
            walk_skeleton(data, table, body, walk_body(data.len(), table, header, start)),
        ),
    )
}

/// What decoding `data` gives: the model and the warnings, or the error
/// that ends the decode. The warnings of the walk through the references
/// come first; those of the check of the finished model follow.
pub open spec fn decoding(
    data: Seq<u8>,
    limit: u64,
) -> Result<(ModelView, Seq<Warning>), DecodeError> {
    match opening(data, limit) {
        Err(e) => Err(e),
        Ok((header, table, budget)) => {
            let walk = walked(data, table, header, budget);
            match walk.failure {
                Some(e) => Err(e),
                None => Ok(
                    (
                        model_of(data, table, header),
                        checked(walk.warnings, model_of(data, table, header)),
                    ),
                ),
            }
        },
    }
}

/// A walk that has failed stays failed through skeleton, mesh and rest.
pub proof fn lemma_failure_stays(data: Seq<u8>, table: Seq<IndexEntry>, body: ModelData, w: Walk)
    requires
        !w.ok(),
    ensures
        walk_skeleton(data, table, body, w) == w,
        walk_mesh(data, table, body, w) == w,
        walk_rest(data, table, body, w) == w,
{
    let records = indexed_records::<DivisionData>(data, table, body.spec_divisions());
    lemma_divisions_fail(data.len(), table, records, 0, records.len(), w);
}

/// Decodes a file into a model.
///
/// The result is the model with the warnings that decoding it gave, or
/// the error that ended the decode; no part of a model is returned with an
/// error. `limit` is the ceiling on the number of records, the lines of
/// the tag index and the bytes of names among them, that may be resolved.
pub fn decode(bytes: &[u8], limit: u64) -> (r: Result<(Model, Vec<Warning>), DecodeError>)
    ensures
        match r {
            Ok((model, warnings)) => decoding(bytes@, limit) == Ok::<
                (ModelView, Seq<Warning>),
                DecodeError,
            >((model@, warnings@)),
            Err(e) => decoding(bytes@, limit) == Err::<(ModelView, Seq<Warning>), DecodeError>(e),
        },
{
    let (header, table, mut budget) = open(bytes, limit)?;
    let mut warnings: Vec<Warning> = Vec::new();
    let ghost start = Walk { budget, warnings: Seq::empty(), failure: None };
    let ghost w1 = walk_body(bytes@.len(), table@, header, start);
    let ghost body_spec = body_of(bytes@, table@, header);
    let body = match follow_body(bytes, table.as_slice(), &header, &mut budget) {
        Ok(body) => body,
        Err(e) => {
            proof {
                lemma_failure_stays(bytes@, table@, body_spec, w1);
            }
            return Err(e);
        },
    };
    let ghost w2 = walk_skeleton(bytes@, table@, body, w1);
    let skeleton = match follow_skeleton(
        bytes,
        table.as_slice(),
        &body,
        &mut warnings,
        &mut budget,
    ) {
        Ok(skeleton) => skeleton,
        Err(e) => {
            proof {
                lemma_failure_stays(bytes@, table@, body, w2);
            }
            return Err(e);
        },
    };
    let ghost w3 = walk_mesh(bytes@, table@, body, w2);
    let mesh = match follow_mesh(bytes, table.as_slice(), &body, Ghost(warnings@), &mut budget) {
        Ok(mesh) => mesh,
        Err(e) => {
            proof {
                lemma_failure_stays(bytes@, table@, body, w3);
            }
            return Err(e);
        },
    };
    let rest = follow_rest(bytes, table.as_slice(), &body, &mut warnings, &mut budget)?;
    let model = Model {
        header,
        data: body,
        name: skeleton.name,
        bones: skeleton.bones,
        bone_lookup: skeleton.bone_lookup,
        vertices: mesh.vertices,
        divisions: mesh.divisions,
        attachments: rest.attachments,
        material_references: rest.material_references,
    };
    check_model(&model, &mut warnings);
    Ok((model, warnings))
}

/// Decoding is a function of the bytes and the ceiling: two decodes of
/// one buffer give the same model and the same warnings, or the same
/// error.
pub proof fn lemma_decode_deterministic(
    data: Seq<u8>,
    limit: u64,
    first: Result<(ModelView, Seq<Warning>), DecodeError>,
    second: Result<(ModelView, Seq<Warning>), DecodeError>,
)
    requires
        first == decoding(data, limit),
        second == decoding(data, limit),
    ensures
        first == second,
{
}

} // verus!
