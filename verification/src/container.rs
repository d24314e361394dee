//! Section containers: a magic tag, a tag index that lists the sections of
//! the file, and the sections themselves.
//!
//! Decoding walks the index in file order and turns every section it knows
//! into owned records of the model. References inside records are resolved
//! on the way, so the model holds no offsets. A section of a type that the
//! schema does not know, or of a version without a layout, is kept as raw
//! bytes and reported; it does not fail the decode.

use vstd::prelude::*;
use vstd::slice::slice_subrange;
use crate::error::{Collection, DecodeError, Warning};
use crate::flags::BoneFlags;
use crate::m3::{Bone, Evnt, Header, IndexEntry};
use crate::primitives::{le_u32_at, starts_with, Cursor};
use crate::reference::{
    is_run, read_whole, resolvable, resolve, resolve_refusal, Addressing, Budget, Record,
    Reference,
};
use crate::text::{decode_text, field_bytes, trim_field, Encoding, Text};

verus! {

/// What a schema takes a section for.
#[derive(Clone, Copy, Debug, PartialEq, Eq, Structural)]
pub enum SectionKind {
    Bones,
    Events,
    Text,
    Unknown,
}

/// The constants of one container format: its magic tag and the tags of
/// the sections it knows.
#[derive(Clone, Copy, Debug, PartialEq, Eq)]
pub struct Schema {
    pub magic: [u8; 4],
    pub bones: [u8; 4],
    pub events: [u8; 4],
    pub text: [u8; 4],
}

/// Compares two tags byte by byte.
pub fn same_tag(a: &[u8; 4], b: &[u8; 4]) -> (r: bool)
    ensures
        r == (a@ == b@),
{
    let r = a[0] == b[0] && a[1] == b[1] && a[2] == b[2] && a[3] == b[3];
    assert(r ==> a@ =~= b@);
    r
}

impl Schema {
    /// What the schema takes a section with the tag `tag` for. The tags
    /// are tried in the order bones, events, text.
    pub open spec fn spec_kind_of(&self, tag: [u8; 4]) -> SectionKind {
        if tag@ == self.bones@ {
            SectionKind::Bones
        } else if tag@ == self.events@ {
            SectionKind::Events
        } else if tag@ == self.text@ {
            SectionKind::Text
        } else {
            SectionKind::Unknown
        }
    }

    #[verifier::when_used_as_spec(spec_kind_of)]
    pub fn kind_of(&self, tag: [u8; 4]) -> (kind: SectionKind)
        ensures
            kind == self.spec_kind_of(tag),
    {
        if same_tag(&tag, &self.bones) {
            SectionKind::Bones
        } else if same_tag(&tag, &self.events) {
            SectionKind::Events
        } else if same_tag(&tag, &self.text) {
            SectionKind::Text
        } else {
            SectionKind::Unknown
        }
    }
}

// ---------------------------------------------------------------------
// Names
// ---------------------------------------------------------------------

/// A record that refers to its name in a text section.
pub trait Named: Record {
    /// The reference to the name.
    spec fn spec_name_ref(&self) -> Reference;

    /// The reference to the name.
    fn name_ref(&self) -> (r: Reference)
        ensures
            r == self.spec_name_ref(),
    ;
}

impl Named for Bone {
    open spec fn spec_name_ref(&self) -> Reference {
        self.name
    }

    fn name_ref(&self) -> (r: Reference) {
        self.name
    }
}

impl Named for Evnt {
    open spec fn spec_name_ref(&self) -> Reference {
        match *self {
            Evnt::V0 { name, .. } => name,
            Evnt::V1 { name, .. } => name,
            Evnt::V2 { name, .. } => name,
        }
    }

    fn name_ref(&self) -> (r: Reference) {
        match *self {
            Evnt::V0 { name, .. } => name,
            Evnt::V1 { name, .. } => name,
            Evnt::V2 { name, .. } => name,
        }
    }
}

/// The run that a reference names, once the reference has been looked up
/// in the tag index: as many records as the reference says, from the
/// offset of the section on.
pub open spec fn indexed_run(table: Seq<IndexEntry>, reference: Reference) -> Reference {
    Reference {
        entries: reference.entries,
        index: table[reference.index as int].offset,
        flags: reference.flags,
    }
}

/// The error with which a reference into the tag index is refused, or
/// `None` where it can be resolved. A reference to no records at all is
/// the empty run and is never refused. Otherwise its `index` has to be a
/// line of the tag index (`ReferenceOutOfBounds`, with the index as offset
/// and the number of lines as length), and the run it names has to be
/// resolvable in the version of that line.
pub open spec fn indexed_refusal<T: Record>(
    length: nat,
    table: Seq<IndexEntry>,
    reference: Reference,
    budget: Budget,
) -> Option<DecodeError> {
    if reference.entries == 0 {
        None
    } else if reference.index >= table.len() {
        Some(
            DecodeError::ReferenceOutOfBounds {
                offset: reference.index as u64,
                length: table.len() as u64,
            },
        )
    } else {
        let run = indexed_run(table, reference);
        let version = table[reference.index as int].version;
        let addressing = Addressing::ByteOffset { base: 0 };
        if resolvable::<T>(length, run, addressing, version, budget) {
            None
        } else {
            Some(resolve_refusal::<T>(length, run, addressing, version, budget))
        }
    }
}

/// Resolves a reference whose `index` is a line of the tag index into the
/// records it names. The records are decoded in the version that the line
/// gives, from the offset that the line gives.
pub fn resolve_indexed<T: Record>(
    buf: &[u8],
    table: &[IndexEntry],
    reference: &Reference,
    budget: &mut Budget,
) -> (r: Result<Vec<T>, DecodeError>)
    ensures
        match r {
            Ok(records) => {
                &&& indexed_refusal::<T>(buf@.len(), table@, *reference, *old(budget)).is_none()
                &&& reference.entries == 0 ==> records@.len() == 0
                &&& reference.entries != 0 ==> is_run(
                    records@,
                    buf@,
                    table@[reference.index as int].offset as int,
                    reference.entries as nat,
                    table@[reference.index as int].version,
                )
                &&& *final(budget) == old(budget).charged(reference.entries as nat)
            },
            Err(e) => {
                &&& indexed_refusal::<T>(buf@.len(), table@, *reference, *old(budget)) == Some(e)
                &&& *final(budget) == *old(budget)
            },
        },
{
    if reference.entries == 0 {
        assert(*budget == budget.charged(0));
        return Ok(Vec::new());
    }
    if reference.index as usize >= table.len() {
        return Err(
            DecodeError::ReferenceOutOfBounds {
                offset: reference.index as u64,
                length: table.len() as u64,
            },
        );
    }
    let entry = &table[reference.index as usize];
    let run = Reference { entries: reference.entries, index: entry.offset, flags: reference.flags };
    resolve::<T>(buf, &run, Addressing::ByteOffset { base: 0 }, entry.version, budget)
}

/// The bytes of the text that a reference names, without the NUL bytes
/// that end it.
pub open spec fn text_bytes(data: Seq<u8>, table: Seq<IndexEntry>, reference: Reference) -> Seq<
    u8,
> {
    if reference.entries == 0 {
        Seq::<u8>::empty()
    } else {
        let start = table[reference.index as int].offset as int;
        let raw = data.subrange(start, start + reference.entries);
        field_bytes(raw, raw.len())
    }
}

/// The position in the buffer of the text that a reference names.
pub open spec fn text_position(table: Seq<IndexEntry>, reference: Reference) -> u64 {
    if reference.entries == 0 {
        0
    } else {
        table[reference.index as int].offset as u64
    }
}

/// Resolves a reference to a text section into the text it names, decoded
/// as UTF-8 with its trailing NUL bytes dropped.
pub fn resolve_text(
    buf: &[u8],
    table: &[IndexEntry],
    reference: &Reference,
    budget: &mut Budget,
) -> (r: Result<Text, DecodeError>)
    ensures
        match r {
            Ok(text) => {
                &&& indexed_refusal::<u8>(buf@.len(), table@, *reference, *old(budget)).is_none()
                &&& text.decodes(text_bytes(buf@, table@, *reference), Encoding::Utf8)
                &&& text.offset == text_position(table@, *reference)
                &&& *final(budget) == old(budget).charged(reference.entries as nat)
            },
            Err(e) => {
                &&& indexed_refusal::<u8>(buf@.len(), table@, *reference, *old(budget)) == Some(e)
                &&& *final(budget) == *old(budget)
            },
        },
{
    let raw: Vec<u8> = resolve_indexed::<u8>(buf, table, reference, budget)?;
    let offset: u64 = if reference.entries == 0 {
        0
    } else {
        table[reference.index as usize].offset as u64
    };
    proof {
        if reference.entries == 0 {
            assert(field_bytes(raw@, raw@.len()) =~= Seq::<u8>::empty());
        } else {
            let start = table@[reference.index as int].offset as int;
            let version = table@[reference.index as int].version;
            assert(raw@ =~= buf@.subrange(start, start + reference.entries)) by {
                assert forall|i: int| 0 <= i < raw@.len() implies raw@[i] == buf@[start + i] by {
                    assert(raw@[i] == <u8 as Record>::value_at(buf@, start + i * 1, version));
                }
            }
        }
    }
    Ok(decode_text(trim_field(raw.as_slice(), raw.len()), Encoding::Utf8, offset))
}

/// A record together with the name that its name reference resolves to.
#[derive(Clone, Debug, PartialEq, Eq)]
pub struct Resolved<T> {
    pub record: T,
    pub name: String,
}

/// What a `Resolved` record stands for: the record and the characters of
/// its name.
pub struct ResolvedView<T> {
    pub record: T,
    pub name: Seq<char>,
}

impl<T> View for Resolved<T> {
    type V = ResolvedView<T>;

    open spec fn view(&self) -> ResolvedView<T> {
        ResolvedView { record: self.record, name: self.name@ }
    }
}

/// The views of a sequence of resolved records.
pub open spec fn views<T>(items: Seq<Resolved<T>>) -> Seq<ResolvedView<T>> {
    Seq::new(items.len(), |i: int| items[i]@)
}

/// Where a run of records stands whose names are being resolved: the
/// records named so far, the warnings so far, and the budget that is left.
pub struct Naming<T> {
    pub items: Seq<ResolvedView<T>>,
    pub warnings: Seq<Warning>,
    pub budget: Budget,
}

/// Names one more record: its name reference is resolved, a warning is
/// added where the name is malformed text, and the budget is charged with
/// the bytes of the name.
pub open spec fn name_one<T: Named>(
    data: Seq<u8>,
    table: Seq<IndexEntry>,
    record: T,
    so_far: Naming<T>,
) -> Result<Naming<T>, DecodeError> {
    let reference = record.spec_name_ref();
    match indexed_refusal::<u8>(data.len(), table, reference, so_far.budget) {
        Some(e) => Err(e),
        None => {
            let bytes = text_bytes(data, table, reference);
            Ok(
                Naming {
                    items: so_far.items.push(
                        ResolvedView { record, name: crate::text::text_of(bytes, Encoding::Utf8) },
                    ),
                    warnings: if crate::text::well_formed_text(bytes, Encoding::Utf8) {
                        so_far.warnings
                    } else {
                        so_far.warnings.push(
                            Warning::TextSubstitution { position: text_position(table, reference) },
                        )
                    },
                    budget: so_far.budget.charged(reference.entries as nat),
                },
            )
        },
    }
}

/// Names the first `k` of `records`, one after the other; the first name
/// that cannot be resolved ends the naming with its error.
pub open spec fn name_all<T: Named>(
    data: Seq<u8>,
    table: Seq<IndexEntry>,
    records: Seq<T>,
    k: nat,
    start: Naming<T>,
) -> Result<Naming<T>, DecodeError>
    decreases k,
{
    if k == 0 {
        Ok(start)
    } else {
        match name_all(data, table, records, (k - 1) as nat, start) {
            Err(e) => Err(e),
            Ok(so_far) => name_one(data, table, records[k - 1], so_far),
        }
    }
}

/// Resolves the names of a run of records. Warnings are appended to
/// `warnings`, and `budget` is charged with the bytes of every name.
pub fn resolve_names<T: Named + Copy>(
    buf: &[u8],
    table: &[IndexEntry],
    records: &Vec<T>,
    warnings: &mut Vec<Warning>,
    budget: &mut Budget,
) -> (r: Result<Vec<Resolved<T>>, DecodeError>)
    ensures
        match r {
            Ok(named) => name_all(
                buf@,
                table@,
                records@,
                records@.len(),
                Naming { items: Seq::empty(), warnings: old(warnings)@, budget: *old(budget) },
            ) == Ok::<Naming<T>, DecodeError>(
                Naming { items: views(named@), warnings: final(warnings)@, budget: *final(budget) },
            ),
            Err(e) => name_all(
                buf@,
                table@,
                records@,
                records@.len(),
                Naming { items: Seq::empty(), warnings: old(warnings)@, budget: *old(budget) },
            ) == Err::<Naming<T>, DecodeError>(e),
        },
{
    let ghost start = Naming::<T> {
        items: Seq::empty(),
        warnings: warnings@,
        budget: *budget,
    };
    let mut named: Vec<Resolved<T>> = Vec::new();
    let mut i: usize = 0;
    assert(views(named@) =~= Seq::<ResolvedView<T>>::empty());
    while i < records.len()
        invariant
            i <= records@.len(),
            named@.len() == i,
            start == (Naming::<T> {
                items: Seq::empty(),
                warnings: old(warnings)@,
                budget: *old(budget),
            }),
            name_all(buf@, table@, records@, i as nat, start) == Ok::<Naming<T>, DecodeError>(
                Naming { items: views(named@), warnings: warnings@, budget: *budget },
            ),
        decreases records@.len() - i,
    {
        let ghost so_far = Naming::<T> {
            items: views(named@),
            warnings: warnings@,
            budget: *budget,
        };
        let record = records[i];
        let reference = record.name_ref();
        let text = match resolve_text(buf, table, &reference, budget) {
            Ok(text) => text,
            Err(e) => {
                proof {
                    assert(name_all(buf@, table@, records@, (i + 1) as nat, start) == Err::<
                        Naming<T>,
                        DecodeError,
                    >(e));
                    lemma_name_all_fails(
                        buf@,
                        table@,
                        records@,
                        (i + 1) as nat,
                        records@.len(),
                        start,
                    );
                }
                return Err(e);
            },
        };
        if text.substituted {
            warnings.push(Warning::TextSubstitution { position: text.offset });
        }
        let ghost before = named@;
        named.push(Resolved { record, name: text.value });
        proof {
            let next = name_one(buf@, table@, record, so_far);
            assert(views(named@) =~= views(before).push(named@[i as int]@));
            assert(next == Ok::<Naming<T>, DecodeError>(
                Naming { items: views(named@), warnings: warnings@, budget: *budget },
            ));
        }
        i = i + 1;
    }
    Ok(named)
}

/// Once a name cannot be resolved, naming more records fails the same way.
pub proof fn lemma_name_all_fails<T: Named>(
    data: Seq<u8>,
    table: Seq<IndexEntry>,
    records: Seq<T>,
    k: nat,
    n: nat,
    start: Naming<T>,
)
    requires
        k <= n,
        name_all(data, table, records, k, start).is_err(),
    ensures
        name_all(data, table, records, n, start) == name_all(data, table, records, k, start),
    decreases n,
{
    if k < n {
        lemma_name_all_fails(data, table, records, k, (n - 1) as nat, start);
    }
}

// ---------------------------------------------------------------------
// The model
// ---------------------------------------------------------------------

/// A section that was not decoded, kept as the bytes it occupies.
#[derive(Clone, Debug, PartialEq, Eq)]
pub struct RawSection {
    pub entry: IndexEntry,
    pub bytes: Vec<u8>,
}

/// What a `RawSection` stands for.
pub struct RawSectionView {
    pub entry: IndexEntry,
    pub bytes: Seq<u8>,
}

impl View for RawSection {
    type V = RawSectionView;

    open spec fn view(&self) -> RawSectionView {
        RawSectionView { entry: self.entry, bytes: self.bytes@ }
    }
}

/// The views of a sequence of raw sections.
pub open spec fn raw_views(items: Seq<RawSection>) -> Seq<RawSectionView> {
    Seq::new(items.len(), |i: int| items[i]@)
}

/// A decoded file: its records by kind, in the order in which the file
/// lists them, and the sections that were not decoded.
#[derive(Clone, Debug, PartialEq, Eq)]
pub struct Model {
    pub header: Header,
    pub bones: Vec<Resolved<Bone>>,
    pub events: Vec<Resolved<Evnt>>,
    pub raw: Vec<RawSection>,
}

/// What a `Model` stands for.
pub struct ModelView {
    pub header: Header,
    pub bones: Seq<ResolvedView<Bone>>,
    pub events: Seq<ResolvedView<Evnt>>,
    pub raw: Seq<RawSectionView>,
}

impl View for Model {
    type V = ModelView;

    open spec fn view(&self) -> ModelView {
        ModelView {
            header: self.header,
            bones: views(self.bones@),
            events: views(self.events@),
            raw: raw_views(self.raw@),
        }
    }
}

/// Where a decode stands between two sections.
pub struct Progress {
    pub model: ModelView,
    pub warnings: Seq<Warning>,
    pub budget: Budget,
}

/// The tag of a section as a number.
pub open spec fn tag_code(tag: [u8; 4]) -> u32 {
    le_u32_at(tag@, 0)
}

/// The bytes that section `i` of the tag index occupies: from its offset
/// to the offset of the next section in the index, or to the end of the
/// buffer where no section follows or the next one does not lie behind it.
pub open spec fn raw_bytes(data: Seq<u8>, table: Seq<IndexEntry>, i: int) -> Seq<u8> {
    let start = if table[i].offset <= data.len() {
        table[i].offset as int
    } else {
        data.len() as int
    };
    let end = if i + 1 < table.len() && start <= table[i + 1].offset <= data.len() {
        table[i + 1].offset as int
    } else {
        data.len() as int
    };
    data.subrange(start, end)
}

/// The reference that a line of the tag index stands for.
pub open spec fn section_run(entry: IndexEntry) -> Reference {
    Reference { entries: entry.repetitions, index: entry.offset, flags: 0 }
}

/// The records of a section, as far as the buffer holds them.
pub open spec fn section_records<T: Record>(data: Seq<u8>, entry: IndexEntry) -> Seq<T> {
    Seq::new(
        entry.repetitions as nat,
        |i: int| T::value_at(data, entry.offset + i * T::stride(entry.version), entry.version),
    )
}

/// Decodes the records of a section and resolves their names.
pub open spec fn named_section<T: Named>(
    data: Seq<u8>,
    table: Seq<IndexEntry>,
    entry: IndexEntry,
    warnings: Seq<Warning>,
    budget: Budget,
) -> Result<Naming<T>, DecodeError> {
    let addressing = Addressing::ByteOffset { base: 0 };
    if !resolvable::<T>(data.len(), section_run(entry), addressing, entry.version, budget) {
        Err(resolve_refusal::<T>(data.len(), section_run(entry), addressing, entry.version, budget))
    } else {
        let records = section_records::<T>(data, entry);
        name_all(
            data,
            table,
            records,
            records.len(),
            Naming {
                items: Seq::empty(),
                warnings,
                budget: budget.charged(entry.repetitions as nat),
            },
        )
    }
}

/// The progress after a section was kept as raw bytes for the reason
/// given in `warning`.
pub open spec fn kept_raw(
    data: Seq<u8>,
    table: Seq<IndexEntry>,
    i: int,
    p: Progress,
    warning: Warning,
) -> Progress {
    Progress {
        model: ModelView {
            header: p.model.header,
            bones: p.model.bones,
            events: p.model.events,
            raw: p.model.raw.push(
                RawSectionView { entry: table[i], bytes: raw_bytes(data, table, i) },
            ),
        },
        warnings: p.warnings.push(warning),
        budget: p.budget,
    }
}

/// Decodes section `i` of the tag index.
///
/// A text section is a pool: it is read where a record refers to it and
/// adds nothing by itself. A section of bones or events is decoded in the
/// version that its line of the index gives; with a version that has no
/// layout it is kept raw and reported. A section of an unknown type is
/// kept raw and reported.
#[verifier::opaque]
pub open spec fn section_step(
    data: Seq<u8>,
    schema: Schema,
    table: Seq<IndexEntry>,
    i: int,
    p: Progress,
) -> Result<Progress, DecodeError> {
    let entry = table[i];
    match schema.spec_kind_of(entry.tag) {
        SectionKind::Text => Ok(p),
        SectionKind::Unknown => Ok(
            kept_raw(
                data,
                table,
                i,
                p,
                Warning::UnknownSection {
                    section_type: tag_code(entry.tag),
                    offset: entry.offset as u64,
                },
            ),
        ),
        SectionKind::Bones => if !Bone::supports(entry.version) {
            Ok(
                kept_raw(
                    data,
                    table,
                    i,
                    p,
                    Warning::UnsupportedSection {
                        section_type: tag_code(entry.tag),
                        version: entry.version,
                    },
                ),
            )
        } else {
            match named_section::<Bone>(data, table, entry, p.warnings, p.budget) {
                Err(e) => Err(e),
                Ok(named) => Ok(
                    Progress {
                        model: ModelView {
                            header: p.model.header,
                            bones: p.model.bones + named.items,
                            events: p.model.events,
                            raw: p.model.raw,
                        },
                        warnings: named.warnings,
                        budget: named.budget,
                    },
                ),
            }
        },
        SectionKind::Events => if !Evnt::supports(entry.version) {
            Ok(
                kept_raw(
                    data,
                    table,
                    i,
                    p,
                    Warning::UnsupportedSection {
                        section_type: tag_code(entry.tag),
                        version: entry.version,
                    },
                ),
            )
        } else {
            match named_section::<Evnt>(data, table, entry, p.warnings, p.budget) {
                Err(e) => Err(e),
                Ok(named) => Ok(
                    Progress {
                        model: ModelView {
                            header: p.model.header,
                            bones: p.model.bones,
                            events: p.model.events + named.items,
                            raw: p.model.raw,
                        },
                        warnings: named.warnings,
                        budget: named.budget,
                    },
                ),
            }
        },
    }
}

/// Decodes the first `k` sections of the tag index in file order; the
/// first section that fails ends the decode with its error.
pub open spec fn sections_upto(
    data: Seq<u8>,
    schema: Schema,
    table: Seq<IndexEntry>,
    k: nat,
    start: Progress,
) -> Result<Progress, DecodeError>
    decreases k,
{
    if k == 0 {
        Ok(start)
    } else {
        match sections_upto(data, schema, table, (k - 1) as nat, start) {
            Err(e) => Err(e),
            Ok(p) => section_step(data, schema, table, k - 1, p),
        }
    }
}

/// Once a section fails, decoding more sections fails the same way.
pub proof fn lemma_sections_fail(
    data: Seq<u8>,
    schema: Schema,
    table: Seq<IndexEntry>,
    k: nat,
    n: nat,
    start: Progress,
)
    requires
        k <= n,
        sections_upto(data, schema, table, k, start).is_err(),
    ensures
        sections_upto(data, schema, table, n, start) == sections_upto(
            data,
            schema,
            table,
            k,
            start,
        ),
    decreases n,
{
    if k < n {
        lemma_sections_fail(data, schema, table, k, (n - 1) as nat, start);
    }
}

// ---------------------------------------------------------------------
// Checking the model
// ---------------------------------------------------------------------

/// Whether `parent` is a parent that a bone of a model with `count` bones
/// can have: -1 for a root, or the position of another bone.
pub open spec fn valid_parent(parent: i16, count: nat) -> bool {
    parent == -1 || 0 <= parent < count
}

/// The warnings for the first `k` bones, bone by bone: one for flag bits
/// outside the declared mask, then one for a parent that is no bone of the
/// model.
pub open spec fn bone_warnings(bones: Seq<ResolvedView<Bone>>, k: nat) -> Seq<Warning>
    decreases k,
{
    if k == 0 {
        Seq::empty()
    } else {
        let bone = bones[k - 1].record;
        let before = bone_warnings(bones, (k - 1) as nat);
        let flagged = if bone.flags.spec_is_valid() {
            before
        } else {
            before.push(
                Warning::ReservedFlags { value: bone.flags.bits, mask: BoneFlags::MASK },
            )
        };
        if valid_parent(bone.parent, bones.len()) {
            flagged
        } else {
            flagged.push(
                Warning::DanglingIndex {
                    owner: Collection::Bones,
                    record: (k - 1) as u64,
                    target: Collection::Bones,
                    index: bone.parent as i64,
                },
            )
        }
    }
}

/// Checks every index that a bone holds into the bones of the model, and
/// every flag word, and appends a warning for each that is amiss.
pub fn check_bones(bones: &Vec<Resolved<Bone>>, warnings: &mut Vec<Warning>)
    ensures
        final(warnings)@ == old(warnings)@ + bone_warnings(views(bones@), bones@.len()),
{
    let count = bones.len();
    let mut i: usize = 0;
    assert(warnings@ =~= old(warnings)@ + bone_warnings(views(bones@), 0));
    while i < count
        invariant
            i <= count,
            count == bones@.len(),
            warnings@ == old(warnings)@ + bone_warnings(views(bones@), i as nat),
        decreases count - i,
    {
        let bone = &bones[i].record;
        let ghost before = bone_warnings(views(bones@), i as nat);
        let ghost after = bone_warnings(views(bones@), (i + 1) as nat);
        assert(views(bones@)[i as int].record == *bone);
        if !bone.flags.is_valid() {
            warnings.push(Warning::ReservedFlags { value: bone.flags.bits, mask: BoneFlags::MASK });
        }
        let parent = bone.parent;
        let valid = parent == -1 || (parent >= 0 && (parent as usize) < count);
        if !valid {
            warnings.push(
                Warning::DanglingIndex {
                    owner: Collection::Bones,
                    record: i as u64,
                    target: Collection::Bones,
                    index: parent as i64,
                },
            );
        }
        assert(warnings@ =~= old(warnings)@ + after);
        i = i + 1;
    }
}

/// Whether every bone of the model has a parent that is a bone of the
/// model, or none.
pub open spec fn parents_valid(bones: Seq<ResolvedView<Bone>>) -> bool {
    forall|i: int| 0 <= i < bones.len() ==> valid_parent(
        (#[trigger] bones[i]).record.parent,
        bones.len(),
    )
}

/// Whether a warning reports an index that points nowhere.
pub open spec fn is_dangling(warning: Warning) -> bool {
    warning is DanglingIndex
}

/// Bones whose check reports no dangling index up to the `k`-th have
/// valid parents up to the `k`-th.
proof fn lemma_checked_upto(bones: Seq<ResolvedView<Bone>>, k: nat)
    requires
        k <= bones.len(),
        forall|j: int|
            0 <= j < bone_warnings(bones, k).len() ==> !is_dangling(
                #[trigger] bone_warnings(bones, k)[j],
            ),
    ensures
        forall|i: int| 0 <= i < k ==> valid_parent(
            (#[trigger] bones[i]).record.parent,
            bones.len(),
        ),
    decreases k,
{
    if k > 0 {
        let bone = bones[k - 1].record;
        let before = bone_warnings(bones, (k - 1) as nat);
        let all = bone_warnings(bones, k);
        let flagged = if bone.flags.spec_is_valid() {
            before
        } else {
            before.push(Warning::ReservedFlags { value: bone.flags.bits, mask: BoneFlags::MASK })
        };
        if !valid_parent(bone.parent, bones.len()) {
            assert(is_dangling(all[all.len() - 1]));
        }
        assert forall|j: int| 0 <= j < before.len() implies !is_dangling(#[trigger] before[j]) by {
            assert(before[j] == flagged[j]);
            assert(flagged[j] == all[j]);
        }
        lemma_checked_upto(bones, (k - 1) as nat);
    }
}

/// A model whose check reports no dangling index has none: every parent
/// of a bone is a position among the bones, or -1.
pub proof fn lemma_checked_model(bones: Seq<ResolvedView<Bone>>)
    requires
        forall|j: int|
            0 <= j < bone_warnings(bones, bones.len()).len() ==> !is_dangling(
                #[trigger] bone_warnings(bones, bones.len())[j],
            ),
    ensures
        parents_valid(bones),
{
    lemma_checked_upto(bones, bones.len());
}

// ---------------------------------------------------------------------
// Decoding
// ---------------------------------------------------------------------

/// The size of the header in bytes.
pub const HEADER_SIZE: usize = 24;

/// The run of lines that makes up the tag index.
pub open spec fn table_run(header: Header) -> Reference {
    Reference { entries: header.index_size, index: header.index_offset, flags: 0 }
}

/// The tag index of a file.
pub open spec fn table_of(data: Seq<u8>, header: Header) -> Seq<IndexEntry> {
    Seq::new(
        header.index_size as nat,
        |i: int| IndexEntry::value_at(data, header.index_offset + i * 16, 0),
    )
}

/// What decoding `data` gives: the model and the warnings, or the error
/// that ends the decode.
///
/// The file has to start with the magic tag of the schema (`BadMagic`) and
/// hold a whole header (`UnexpectedEof`). The tag index has to lie inside
/// the file (`ReferenceOutOfBounds`) and under the ceiling of `limit`
/// resolved records (`RecordLimitExceeded`). The sections are then decoded
/// in the order of the index. The warnings of the sections come first;
/// those of the check of the finished model follow.
pub open spec fn decoding(data: Seq<u8>, schema: Schema, limit: u64) -> Result<
    (ModelView, Seq<Warning>),
    DecodeError,
> {
    let fresh = Budget { limit, used: 0 };
    let addressing = Addressing::ByteOffset { base: 0 };
    if !starts_with(data, schema.magic@) {
        Err(DecodeError::BadMagic)
    } else if data.len() < HEADER_SIZE {
        Err(DecodeError::UnexpectedEof)
    } else {
        let header = Header::value_at(data, 0, 0);
        if !resolvable::<IndexEntry>(data.len(), table_run(header), addressing, 0, fresh) {
            Err(resolve_refusal::<IndexEntry>(data.len(), table_run(header), addressing, 0, fresh))
        } else {
            let table = table_of(data, header);
            let start = Progress {
                model: ModelView {
                    header,
                    bones: Seq::empty(),
                    events: Seq::empty(),
                    raw: Seq::empty(),
                },
                warnings: Seq::empty(),
                budget: fresh.charged(header.index_size as nat),
            };
            checked(sections_upto(data, schema, table, table.len(), start))
        }
    }
}

/// The outcome of a decode whose sections have been decoded: the model is
/// checked, and the warnings of the check follow those of the sections.
pub open spec fn checked(sections: Result<Progress, DecodeError>) -> Result<
    (ModelView, Seq<Warning>),
    DecodeError,
> {
    match sections {
        Err(e) => Err(e),
        Ok(p) => Ok((p.model, p.warnings + bone_warnings(p.model.bones, p.model.bones.len()))),
    }
}

/// Decodes the records of one section and resolves their names.
fn decode_named_section<T: Named + Copy>(
    buf: &[u8],
    table: &[IndexEntry],
    entry: &IndexEntry,
    warnings: &mut Vec<Warning>,
    budget: &mut Budget,
) -> (r: Result<Vec<Resolved<T>>, DecodeError>)
    ensures
        match r {
            Ok(named) => named_section::<T>(
                buf@,
                table@,
                *entry,
                old(warnings)@,
                *old(budget),
            ) == Ok::<Naming<T>, DecodeError>(
                Naming { items: views(named@), warnings: final(warnings)@, budget: *final(budget) },
            ),
            Err(e) => named_section::<T>(buf@, table@, *entry, old(warnings)@, *old(budget))
                == Err::<Naming<T>, DecodeError>(e),
        },
{
    let run = Reference { entries: entry.repetitions, index: entry.offset, flags: 0 };
    let records: Vec<T> = resolve::<T>(
        buf,
        &run,
        Addressing::ByteOffset { base: 0 },
        entry.version,
        budget,
    )?;
    assert(records@ =~= section_records::<T>(buf@, *entry));
    resolve_names(buf, table, &records, warnings, budget)
}

/// Copies the bytes that section `i` of the tag index occupies.
fn copy_raw(buf: &[u8], table: &[IndexEntry], i: usize) -> (r: RawSection)
    requires
        i < table@.len(),
    ensures
        r@ == (
            RawSectionView { entry: table@[i as int], bytes: raw_bytes(buf@, table@, i as int) }
        ),
{
    let length = buf.len();
    let entry = table[i];
    let start: usize = if entry.offset as u64 <= length as u64 {
        entry.offset as usize
    } else {
        length
    };
    let mut end: usize = length;
    if i + 1 < table.len() {
        let next = table[i + 1].offset;
        if start as u64 <= next as u64 && next as u64 <= length as u64 {
            end = next as usize;
        }
    }
    let bytes = vstd::slice::slice_to_vec(slice_subrange(buf, start, end));
    RawSection { entry, bytes }
}

/// The number that the four bytes of a tag spell in little-endian order.
pub fn tag_number(tag: &[u8; 4]) -> (r: u32)
    ensures
        r == tag_code(*tag),
{
    tag[0] as u32 + 0x100 * (tag[1] as u32) + 0x1_0000 * (tag[2] as u32) + 0x100_0000 * (
    tag[3] as u32)
}

/// Keeps section `i` of the tag index as raw bytes and records why.
fn keep_raw(
    buf: &[u8],
    table: &[IndexEntry],
    i: usize,
    warning: Warning,
    model: &mut Model,
    warnings: &mut Vec<Warning>,
)
    requires
        i < table@.len(),
    ensures
        final(model)@ == (ModelView {
            header: old(model)@.header,
            bones: old(model)@.bones,
            events: old(model)@.events,
            raw: old(model)@.raw.push(
                RawSectionView {
                    entry: table@[i as int],
                    bytes: raw_bytes(buf@, table@, i as int),
                },
            ),
        }),
        final(warnings)@ == old(warnings)@.push(warning),
{
    let raw = copy_raw(buf, table, i);
    let ghost before = model.raw@;
    model.raw.push(raw);
    warnings.push(warning);
    assert(raw_views(model.raw@) =~= raw_views(before).push(raw@));
}

/// Decodes a section of bones and adds its bones to the model.
fn add_bones(
    buf: &[u8],
    table: &[IndexEntry],
    entry: &IndexEntry,
    model: &mut Model,
    warnings: &mut Vec<Warning>,
    budget: &mut Budget,
) -> (r: Result<(), DecodeError>)
    ensures
        match r {
            Ok(_) => {
                let named = named_section::<Bone>(
                    buf@,
                    table@,
                    *entry,
                    old(warnings)@,
                    *old(budget),
                );
                &&& named.is_ok()
                &&& final(model)@ == (ModelView {
                    header: old(model)@.header,
                    bones: old(model)@.bones + named.unwrap().items,
                    events: old(model)@.events,
                    raw: old(model)@.raw,
                })
                &&& final(warnings)@ == named.unwrap().warnings
                &&& *final(budget) == named.unwrap().budget
            },
            Err(e) => named_section::<Bone>(buf@, table@, *entry, old(warnings)@, *old(budget))
                == Err::<Naming<Bone>, DecodeError>(e),
        },
{
    let mut named = decode_named_section::<Bone>(buf, table, entry, warnings, budget)?;
    let ghost before = model.bones@;
    let ghost added = named@;
    model.bones.append(&mut named);
    assert(views(model.bones@) =~= views(before) + views(added));
    Ok(())
}

/// Decodes a section of events and adds its events to the model.
fn add_events(
    buf: &[u8],
    table: &[IndexEntry],
    entry: &IndexEntry,
    model: &mut Model,
    warnings: &mut Vec<Warning>,
    budget: &mut Budget,
) -> (r: Result<(), DecodeError>)
    ensures
        match r {
            Ok(_) => {
                let named = named_section::<Evnt>(
                    buf@,
                    table@,
                    *entry,
                    old(warnings)@,
                    *old(budget),
                );
                &&& named.is_ok()
                &&& final(model)@ == (ModelView {
                    header: old(model)@.header,
                    bones: old(model)@.bones,
                    events: old(model)@.events + named.unwrap().items,
                    raw: old(model)@.raw,
                })
                &&& final(warnings)@ == named.unwrap().warnings
                &&& *final(budget) == named.unwrap().budget
            },
            Err(e) => named_section::<Evnt>(buf@, table@, *entry, old(warnings)@, *old(budget))
                == Err::<Naming<Evnt>, DecodeError>(e),
        },
{
    let mut named = decode_named_section::<Evnt>(buf, table, entry, warnings, budget)?;
    let ghost before = model.events@;
    let ghost added = named@;
    model.events.append(&mut named);
    assert(views(model.events@) =~= views(before) + views(added));
    Ok(())
}

/// Decodes section `i` of the tag index into the model.
fn decode_section(
    buf: &[u8],
    schema: &Schema,
    table: &[IndexEntry],
    i: usize,
    model: &mut Model,
    warnings: &mut Vec<Warning>,
    budget: &mut Budget,
) -> (r: Result<(), DecodeError>)
    requires
        i < table@.len(),
    ensures
        match r {
            Ok(_) => section_step(
                buf@,
                *schema,
                table@,
                i as int,
                Progress { model: old(model)@, warnings: old(warnings)@, budget: *old(budget) },
            ) == Ok::<Progress, DecodeError>(
                Progress {
                    model: final(model)@,
                    warnings: final(warnings)@,
                    budget: *final(budget),
                },
            ),
            Err(e) => section_step(
                buf@,
                *schema,
                table@,
                i as int,
                Progress { model: old(model)@, warnings: old(warnings)@, budget: *old(budget) },
            ) == Err::<Progress, DecodeError>(e),
        },
{
    reveal(section_step);
    let entry = table[i];
    match schema.kind_of(entry.tag) {
        SectionKind::Text => Ok(()),
        SectionKind::Unknown => {
            let warning = Warning::UnknownSection {
                section_type: tag_number(&entry.tag),
                offset: entry.offset as u64,
            };
            keep_raw(buf, table, i, warning, model, warnings);
            Ok(())
        },
        SectionKind::Bones => {
            if Bone::width(entry.version).is_none() {
                let warning = Warning::UnsupportedSection {
                    section_type: tag_number(&entry.tag),
                    version: entry.version,
                };
                keep_raw(buf, table, i, warning, model, warnings);
                Ok(())
            } else {
                add_bones(buf, table, &entry, model, warnings, budget)
            }
        },
        SectionKind::Events => {
            if Evnt::width(entry.version).is_none() {
                let warning = Warning::UnsupportedSection {
                    section_type: tag_number(&entry.tag),
                    version: entry.version,
                };
                keep_raw(buf, table, i, warning, model, warnings);
                Ok(())
            } else {
                add_events(buf, table, &entry, model, warnings, budget)
            }
        },
    }
}

/// Decodes a file into a model.
///
/// The result is the model with the warnings that decoding it gave, or
/// the error that ended the decode; no part of a model is returned with an
/// error. `limit` is the ceiling on the number of records, the lines of
/// the tag index and the bytes of names among them, that may be resolved.
pub fn decode_model(bytes: &[u8], schema: &Schema, limit: u64) -> (r: Result<
    (Model, Vec<Warning>),
    DecodeError,
>)
    ensures
        match r {
            Ok((model, warnings)) => decoding(bytes@, *schema, limit) == Ok::<
                (ModelView, Seq<Warning>),
                DecodeError,
            >((model@, warnings@)),
            Err(e) => decoding(bytes@, *schema, limit) == Err::<
                (ModelView, Seq<Warning>),
                DecodeError,
            >(e),
        },
{
    let mut cur = Cursor::new(bytes);
    cur.expect_tag(schema.magic.as_slice())?;
    cur.seek(0);
    let header = read_whole::<Header>(&mut cur, 0)?;
    let mut budget = Budget::new(limit);
    let ghost fresh = budget;
    let run = Reference { entries: header.index_size, index: header.index_offset, flags: 0 };
    let table: Vec<IndexEntry> = resolve::<IndexEntry>(
        bytes,
        &run,
        Addressing::ByteOffset { base: 0 },
        0,
        &mut budget,
    )?;
    assert(table@ =~= table_of(bytes@, header));
    let mut model = Model { header, bones: Vec::new(), events: Vec::new(), raw: Vec::new() };
    let mut warnings: Vec<Warning> = Vec::new();
    let ghost start = Progress {
        model: ModelView { header, bones: Seq::empty(), events: Seq::empty(), raw: Seq::empty() },
        warnings: Seq::empty(),
        budget: fresh.charged(header.index_size as nat),
    };
    assert(model@.bones =~= Seq::empty() && model@.events =~= Seq::empty() && model@.raw
        =~= Seq::empty());
    let mut i: usize = 0;
    while i < table.len()
        invariant
            i <= table@.len(),
            decoding(bytes@, *schema, limit) == checked(
                sections_upto(bytes@, *schema, table@, table@.len(), start),
            ),
            sections_upto(bytes@, *schema, table@, i as nat, start) == Ok::<Progress, DecodeError>(
                Progress { model: model@, warnings: warnings@, budget },
            ),
        decreases table@.len() - i,
    {
        match decode_section(
            bytes,
            schema,
            table.as_slice(),
            i,
            &mut model,
            &mut warnings,
            &mut budget,
        ) {
            Ok(()) => {},
            Err(e) => {
                proof {
                    lemma_sections_fail(
                        bytes@,
                        *schema,
                        table@,
                        (i + 1) as nat,
                        table@.len(),
                        start,
                    );
                }
                return Err(e);
            },
        }
        i = i + 1;
    }
    check_bones(&model.bones, &mut warnings);
    Ok((model, warnings))
}

/// Decoding is a function of the bytes, the schema and the ceiling: two
/// decodes of one buffer give the same model and the same warnings, or the
/// same error.
pub proof fn lemma_decode_deterministic(
    data: Seq<u8>,
    schema: Schema,
    limit: u64,
    first: Result<(ModelView, Seq<Warning>), DecodeError>,
    second: Result<(ModelView, Seq<Warning>), DecodeError>,
)
    requires
        first == decoding(data, schema, limit),
        second == decoding(data, schema, limit),
    ensures
        first == second,
{
}

} // verus!
