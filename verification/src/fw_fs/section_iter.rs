//! The flattened sequence of the sections of a firmware file.

use crate::address_helper::{align_up, lemma_align_bounds, lemma_common_alignments, spec_align_up};
use crate::base::Status;
use crate::fw_fs::ffs::section::header;
use crate::fw_fs::file_iter::bytes_left;
use crate::fw_fs::section::{parse_section, section_result_view, Section, SectionModel};
use std::collections::VecDeque;
use vstd::prelude::*;
use vstd::slice::slice_subrange;

verus! {

/// The number of nested expansions that an iteration allows where the
/// caller sets no limit of its own.
pub const MAX_EXTRACTION_DEPTH: usize = 16;

/// The model of what an extraction returned.
pub open spec fn extraction_view(r: Result<Vec<u8>, Status>) -> Result<Seq<u8>, Status> {
    match r {
        Ok(bytes) => Ok(bytes@),
        Err(e) => Err(e),
    }
}

/// Defines an interface that can be implemented to provide extraction logic for encapsulation sections.
///
/// An extractor is a function of the section: asked about the same section
/// again, it returns the same result. `extracted` names that result, and the
/// contracts of the section iterator are stated over it. An extractor that
/// is verified proves that `extract` returns what `extracted` says; of an
/// extractor that is not verified this is taken on trust, and nothing else
/// is assumed of what it returns.
pub trait SectionExtractor {
    /// What `extract` returns for a section. An implementation that does
    /// not say what it is leaves it open: it is some result for each
    /// section.
    open spec fn extracted(&self, section: SectionModel) -> Result<Seq<u8>, Status> {
        arbitrary::<spec_fn(&Self, SectionModel) -> Result<Seq<u8>, Status>>()(self, section)
    }

    /// Extracts the given section and returns the resulting buffer.
    ///
    /// This will be called for every encapsulation section that a section
    /// iterator with this extractor meets.
    ///
    /// If section extraction is successful, then the resulting buffer is returned.
    ///
    /// If the section extraction implementation supports extracting the section, but there is an error extracting it,
    /// then an error should be returned.
    ///
    /// If the section extraction implementation does not support the encapsulations type used in this section, it can
    /// return a successful extraction with a zero-size buffer - this will allow parsing the rest of the FFS while only
    /// exposing the encapsulation section as a whole (without exposing sections it contains that cannot be extracted).
    fn extract(&self, section: &Section) -> (r: Result<Vec<u8>, Status>)
        ensures
            extraction_view(r) == self.extracted(section@),
    ;
}

/// The extractor that expands no section: it returns an empty buffer for
/// every section.
#[derive(Debug, Clone, Copy)]
pub struct NullSectionExtractor {}

impl SectionExtractor for NullSectionExtractor {
    open spec fn extracted(&self, section: SectionModel) -> Result<Seq<u8>, Status> {
        Ok(Seq::empty())
    }

    fn extract(&self, section: &Section) -> (r: Result<Vec<u8>, Status>) {
        Ok(Vec::new())
    }
}

/// The last item of the sequence is an error.
pub open spec fn ends_in_error(items: Seq<Result<SectionModel, Status>>) -> bool {
    items.len() > 0 && items.last() is Err
}

/// No item of the sequence but the last is an error.
pub open spec fn errors_come_last(items: Seq<Result<SectionModel, Status>>) -> bool {
    forall|i: int| 0 <= i < items.len() - 1 ==> (#[trigger] items[i]) is Ok
}

/// The items that the result of an extraction expands to, with `depth`
/// nested expansions allowed.
///
/// A failed extraction expands to its error. An empty buffer expands to
/// nothing. Any other buffer expands to the sections in it, which takes one
/// of the expansions allowed; where none is left, it expands to the error of
/// a corrupted volume.
pub open spec fn expansion_of<E: SectionExtractor>(
    extractor: &E,
    extracted: Result<Seq<u8>, Status>,
    depth: nat,
) -> Seq<Result<SectionModel, Status>>
    decreases depth, 0nat, 0nat,
{
    match extracted {
        Err(e) => seq![Err(e)],
        Ok(bytes) => if bytes.len() == 0 {
            Seq::empty()
        } else if depth == 0 {
            seq![Err(Status::VolumeCorrupted)]
        } else {
            sections_from(extractor, bytes, 0, (depth - 1) as nat)
        },
    }
}

/// The items that an iteration over `buf` yields from offset `off` on, with
/// `depth` nested expansions allowed.
///
/// The iteration ends without an error where less than a section header is
/// left of the buffer. A section that fails to parse is yielded as its error
/// and ends the iteration. A section that parses is yielded; behind an
/// encapsulation section come the items that its extraction expands to, and
/// an error among them ends the iteration. Behind the section the iteration
/// goes on at the next offset that is a multiple of 4.
pub open spec fn sections_from<E: SectionExtractor>(
    extractor: &E,
    buf: Seq<u8>,
    off: int,
    depth: nat,
) -> Seq<Result<SectionModel, Status>>
    decreases depth, 1nat, bytes_left(buf, off),
{
    if off < 0 || buf.len() - off < header::STANDARD_HEADER_SIZE {
        Seq::empty()
    } else {
        match parse_section(buf.subrange(off, buf.len() as int)) {
            Err(e) => seq![Err(e)],
            Ok(section) => {
                let expansion = if section.is_encapsulation() {
                    expansion_of(extractor, extractor.extracted(section), depth)
                } else {
                    Seq::empty()
                };
                if ends_in_error(expansion) {
                    seq![Ok(section)] + expansion
                } else {
                    seq![Ok(section)] + expansion + sections_from(
                        extractor,
                        buf,
                        off + spec_align_up(section.section_size, 4),
                        depth,
                    )
                }
            },
        }
    }
}

/// Where less than a section header is left of the buffer, no section
/// follows.
pub proof fn lemma_sections_from_end<E: SectionExtractor>(
    extractor: &E,
    buf: Seq<u8>,
    off: int,
    depth: nat,
)
    requires
        buf.len() - off < header::STANDARD_HEADER_SIZE,
    ensures
        sections_from(extractor, buf, off, depth) == Seq::<Result<SectionModel, Status>>::empty(),
{
}

/// An error ends the sequence of the items of an iteration: no item but the
/// last is an error.
pub proof fn lemma_errors_come_last<E: SectionExtractor>(
    extractor: &E,
    buf: Seq<u8>,
    off: int,
    depth: nat,
)
    ensures
        errors_come_last(sections_from(extractor, buf, off, depth)),
    decreases depth, 1nat, bytes_left(buf, off),
{
    if off < 0 || buf.len() - off < header::STANDARD_HEADER_SIZE {
    } else {
        match parse_section(buf.subrange(off, buf.len() as int)) {
            Err(e) => {},
            Ok(section) => {
                let extracted = extractor.extracted(section);
                let expansion = if section.is_encapsulation() {
                    expansion_of(extractor, extracted, depth)
                } else {
                    Seq::empty()
                };
                if section.is_encapsulation() {
                    lemma_expansion_errors_come_last(extractor, extracted, depth);
                }
                assert(errors_come_last(expansion));
                let next = off + spec_align_up(section.section_size, 4);
                let rest = sections_from(extractor, buf, next, depth);
                if !ends_in_error(expansion) {
                    lemma_align_bounds(section.section_size, 4);
                    lemma_errors_come_last(extractor, buf, next, depth);
                    let all = seq![Ok::<SectionModel, Status>(section)] + expansion + rest;
                    assert forall|i: int| 0 <= i < all.len() - 1 implies (#[trigger] all[i]) is Ok by {
                        if i == 0 {
                        } else if i < 1 + expansion.len() {
                            assert(all[i] == expansion[i - 1]);
                        } else {
                            assert(all[i] == rest[i - 1 - expansion.len()]);
                        }
                    }
                } else {
                    let all = seq![Ok::<SectionModel, Status>(section)] + expansion;
                    assert forall|i: int| 0 <= i < all.len() - 1 implies (#[trigger] all[i]) is Ok by {
                        if i > 0 {
                            assert(all[i] == expansion[i - 1]);
                        }
                    }
                }
            },
        }
    }
}

/// An error ends the sequence of the items of an expansion.
pub proof fn lemma_expansion_errors_come_last<E: SectionExtractor>(
    extractor: &E,
    extracted: Result<Seq<u8>, Status>,
    depth: nat,
)
    ensures
        errors_come_last(expansion_of(extractor, extracted, depth)),
    decreases depth, 0nat, 0nat,
{
    match extracted {
        Err(e) => {},
        Ok(bytes) => {
            if bytes.len() != 0 && depth != 0 {
                lemma_errors_come_last(extractor, bytes, 0, (depth - 1) as nat);
            }
        },
    }
}

/// Behind a section, and behind what it expands to, the iteration goes on at
/// the next multiple of 4 behind the end of the section.
pub proof fn lemma_next_section_offset<E: SectionExtractor>(
    extractor: &E,
    buf: Seq<u8>,
    off: int,
    depth: nat,
)
    requires
        0 <= off,
        off % 4 == 0,
        sections_from(extractor, buf, off, depth).len() > 0,
        sections_from(extractor, buf, off, depth)[0] is Ok,
    ensures
        ({
            let all = sections_from(extractor, buf, off, depth);
            let section = all[0]->Ok_0;
            let expansion = if section.is_encapsulation() {
                expansion_of(extractor, extractor.extracted(section), depth)
            } else {
                Seq::empty()
            };
            let next = spec_align_up(off + section.section_size, 4);
            &&& parse_section(buf.subrange(off, buf.len() as int)) == all[0]
            &&& next % 4 == 0
            &&& off < next
            &&& !ends_in_error(expansion) ==> all == seq![Ok::<SectionModel, Status>(section)]
                + expansion + sections_from(extractor, buf, next, depth)
            &&& ends_in_error(expansion) ==> all == seq![Ok::<SectionModel, Status>(section)]
                + expansion
        }),
{
    let section = parse_section(buf.subrange(off, buf.len() as int))->Ok_0;
    lemma_align_bounds(section.section_size, 4);
    lemma_align_bounds(off + section.section_size, 4);
    assert(off + spec_align_up(section.section_size, 4) == spec_align_up(
        off + section.section_size,
        4,
    ));
}

/// The models of the items of a queue.
pub open spec fn items_view(items: Seq<Result<Section, Status>>) -> Seq<
    Result<SectionModel, Status>,
> {
    items.map_values(|r: Result<Section, Status>| section_result_view(r))
}

/// An iterator over the sections in a buffer, which expands the
/// encapsulation sections with an extractor.
pub struct FileSectionIterator<'a, E: SectionExtractor> {
    buffer: &'a [u8],
    extractor: &'a E,
    next_offset: usize,
    error: bool,
    depth: usize,
    pending_extracted_sections: VecDeque<Result<Section, Status>>,
}

impl<'a, E: SectionExtractor> View for FileSectionIterator<'a, E> {
    type V = Seq<Result<SectionModel, Status>>;

    /// What the iterator has yet to yield.
    closed spec fn view(&self) -> Seq<Result<SectionModel, Status>> {
        let pending = items_view(self.pending_extracted_sections@);
        if self.error {
            Seq::empty()
        } else if ends_in_error(pending) {
            pending
        } else {
            pending + sections_from(
                self.extractor,
                self.buffer@,
                self.next_offset as int,
                self.depth as nat,
            )
        }
    }
}

/// Expands the result of an extraction: parses the sections in the
/// extracted buffer, and expands the encapsulation sections among them with
/// `extractor`, with `depth` nested expansions allowed.
pub fn expand_extracted<E: SectionExtractor>(
    extracted: Result<Vec<u8>, Status>,
    extractor: &E,
    depth: usize,
) -> (items: VecDeque<Result<Section, Status>>)
    ensures
        items_view(items@) == expansion_of(extractor, extraction_view(extracted), depth as nat),
    decreases depth, 0nat,
{
    let mut items: VecDeque<Result<Section, Status>> = VecDeque::new();
    match extracted {
        Err(err) => {
            // on error, the error is the one item. The encapsulation section is yielded, and
            // on the next iteration, the error is yielded.
            items.push_back(Err(err));
            assert(items_view(items@) =~= seq![Err::<SectionModel, Status>(err)]);
        },
        Ok(extracted_buffer) => {
            if extracted_buffer.len() == 0 {
                assert(items_view(items@) =~= Seq::<Result<SectionModel, Status>>::empty());
            } else if depth == 0 {
                items.push_back(Err(Status::VolumeCorrupted));
                assert(items_view(items@) =~= seq![
                    Err::<SectionModel, Status>(Status::VolumeCorrupted),
                ]);
            } else {
                let mut inner = FileSectionIterator::with_max_depth(
                    extracted_buffer.as_slice(),
                    extractor,
                    depth - 1,
                );
                let ghost all = inner@;
                assert(items_view(items@) + inner@ =~= all);
                loop
                    invariant
                        inner.spec_max_depth() == depth - 1,
                        items_view(items@) + inner@ == all,
                    ensures
                        items_view(items@) == all,
                    decreases inner@.len(),
                {
                    let ghost before = items_view(items@);
                    let ghost left = inner@;
                    match inner.next() {
                        None => {
                            assert(items_view(items@) =~= items_view(items@) + inner@);
                            break ;
                        },
                        Some(item) => {
                            items.push_back(item);
                            assert(items_view(items@) =~= before.push(left[0]));
                            assert(items_view(items@) + inner@ =~= before + left);
                        },
                    }
                }
            }
        },
    }
    items
}

impl<'a, E: SectionExtractor> FileSectionIterator<'a, E> {
    /// No pending item but the last is an error.
    #[verifier::type_invariant]
    spec fn well_formed(self) -> bool {
        errors_come_last(items_view(self.pending_extracted_sections@))
    }

    /// The number of nested expansions that the iterator allows.
    pub closed spec fn spec_max_depth(&self) -> nat {
        self.depth as nat
    }

    /// An iterator over the sections in `buffer`, the first of which starts
    /// at offset 0. It allows [`MAX_EXTRACTION_DEPTH`] nested expansions.
    pub fn new(buffer: &'a [u8], extractor: &'a E) -> (it: FileSectionIterator<'a, E>)
        ensures
            it@ == sections_from(extractor, buffer@, 0, MAX_EXTRACTION_DEPTH as nat),
            it.spec_max_depth() == MAX_EXTRACTION_DEPTH,
    {
        FileSectionIterator::with_max_depth(buffer, extractor, MAX_EXTRACTION_DEPTH)
    }

    /// An iterator over the sections in `buffer` that allows `max_depth`
    /// nested expansions. An extraction that would need one more is yielded
    /// as the error of a corrupted volume.
    pub fn with_max_depth(buffer: &'a [u8], extractor: &'a E, max_depth: usize) -> (it:
        FileSectionIterator<'a, E>)
        ensures
            it@ == sections_from(extractor, buffer@, 0, max_depth as nat),
            it.spec_max_depth() == max_depth,
    {
        let pending: VecDeque<Result<Section, Status>> = VecDeque::new();
        assert(items_view(pending@) =~= Seq::<Result<SectionModel, Status>>::empty());
        let it = FileSectionIterator {
            buffer,
            extractor,
            next_offset: 0,
            error: false,
            depth: max_depth,
            pending_extracted_sections: pending,
        };
        assert(it@ =~= sections_from(extractor, buffer@, 0, max_depth as nat));
        it
    }

    /// Yields the next section, or the error that ends the iteration.
    ///
    /// An error is yielded once; after it the iterator yields nothing.
    pub fn next(&mut self) -> (r: Option<Result<Section, Status>>)
        ensures
            final(self).spec_max_depth() == old(self).spec_max_depth(),
            old(self)@.len() == 0 ==> r is None && final(self)@ == old(self)@,
            old(self)@.len() > 0 ==> r is Some && section_result_view(r->0) == old(self)@[0]
                && final(self)@ == old(self)@.drop_first(),
            r is Some && r->0 is Err ==> final(self)@.len() == 0,
        decreases old(self).spec_max_depth(), 1nat,
    {
        proof {
            use_type_invariant(&*self);
        }
        if self.error {
            return None;
        }
        let ghost pending = items_view(self.pending_extracted_sections@);
        let ghost tail = sections_from(
            self.extractor,
            self.buffer@,
            self.next_offset as int,
            self.depth as nat,
        );
        let mut queue: VecDeque<Result<Section, Status>> = VecDeque::new();
        assert(items_view(queue@) =~= Seq::<Result<SectionModel, Status>>::empty());
        std::mem::swap(&mut self.pending_extracted_sections, &mut queue);
        let first = queue.pop_front();
        assert(first is Some ==> items_view(queue@) =~= pending.drop_first());
        assert(first is None ==> items_view(queue@) =~= pending);
        self.pending_extracted_sections = queue;
        if let Some(result) = first {
            assert(section_result_view(result) == pending[0]);
            if result.is_err() {
                assert(pending.len() == 1);
                self.error = true;
                assert(self@ =~= old(self)@.drop_first());
            } else {
                assert(self@ =~= old(self)@.drop_first());
            }
            return Some(result);
        }
        assert(pending =~= Seq::<Result<SectionModel, Status>>::empty());
        assert(old(self)@ =~= tail);
        let len = self.buffer.len();
        if self.next_offset > len {
            return None;
        }
        if len - self.next_offset < header::STANDARD_HEADER_SIZE {
            return None;
        }
        let result = Section::new(slice_subrange(self.buffer, self.next_offset, len));
        match &result {
            Ok(section) => {
                let ghost model = section@;
                let ghost base = self.next_offset as int;
                let ghost next = base + spec_align_up(model.section_size, 4);
                let ghost rest = sections_from(self.extractor, self.buffer@, next, self.depth as nat);
                proof {
                    lemma_common_alignments();
                    lemma_align_bounds(model.section_size, 4);
                }
                let size = section.section_size();
                let expansion: VecDeque<Result<Section, Status>> = if section.is_encapsulation() {
                    // attempt to extract the encapsulated section.
                    let extracted = self.extractor.extract(section);
                    proof {
                        lemma_expansion_errors_come_last(
                            self.extractor,
                            extraction_view(extracted),
                            self.depth as nat,
                        );
                    }
                    expand_extracted(extracted, self.extractor, self.depth)
                } else {
                    let none: VecDeque<Result<Section, Status>> = VecDeque::new();
                    assert(items_view(none@) =~= Seq::<Result<SectionModel, Status>>::empty());
                    none
                };
                let ghost expanded = items_view(expansion@);
                assert(tail == if ends_in_error(expanded) {
                    seq![Ok::<SectionModel, Status>(model)] + expanded
                } else {
                    seq![Ok::<SectionModel, Status>(model)] + expanded + rest
                });
                self.pending_extracted_sections = expansion;
                let aligned = align_up(size as u64, 4);
                if aligned > (usize::MAX - self.next_offset) as u64 {
                    proof {
                        lemma_sections_from_end(self.extractor, self.buffer@, next, self.depth as nat);
                        lemma_sections_from_end(
                            self.extractor,
                            self.buffer@,
                            usize::MAX as int,
                            self.depth as nat,
                        );
                    }
                    self.next_offset = usize::MAX;
                } else {
                    self.next_offset = self.next_offset + aligned as usize;
                }
                assert(self@ =~= tail.drop_first());
            },
            Err(_) => {
                self.error = true;
                assert(self@ =~= tail.drop_first());
            },
        }
        Some(result)
    }
}

} // verus!
