//! The sequence of the firmware files in a window of a firmware volume.

use crate::address_helper::{align_up, lemma_align_bounds, lemma_common_alignments, spec_align_up};
use crate::base::Status;
use crate::bytes::{all_bytes_are, bytes_all_equal};
use crate::fw_fs::ffs::file::HEADER_SIZE;
use crate::fw_fs::file::{file_result_view, parse_file, File, FileModel};
use vstd::prelude::*;
use vstd::slice::slice_subrange;

verus! {

/// The number of bytes of `buf` from offset `off` on.
pub open spec fn bytes_left(buf: Seq<u8>, off: int) -> nat {
    if 0 <= off <= buf.len() {
        (buf.len() - off) as nat
    } else {
        0
    }
}

/// The files that an iteration over `buf` yields from offset `off` on.
///
/// The iteration ends without an error where less than a file header is left
/// of the window, or where the next bytes of the length of a file header all
/// equal the erase byte. A file that fails to parse is yielded as its error
/// and ends the iteration. Behind a file the iteration goes on at the next
/// offset that is a multiple of 8.
pub open spec fn files_from(buf: Seq<u8>, erase_byte: u8, off: int) -> Seq<
    Result<FileModel, Status>,
>
    decreases bytes_left(buf, off),
{
    if off < 0 || buf.len() - off < HEADER_SIZE || all_bytes_are(
        buf,
        off,
        HEADER_SIZE as int,
        erase_byte,
    ) {
        Seq::empty()
    } else {
        match parse_file(buf.subrange(off, buf.len() as int)) {
            Err(e) => seq![Err(e)],
            Ok(file) => seq![Ok(file)] + files_from(
                buf,
                erase_byte,
                spec_align_up(off + file.size, 8),
            ),
        }
    }
}

/// Where less than a file header is left of the window, no file follows.
pub proof fn lemma_files_from_end(buf: Seq<u8>, erase_byte: u8, off: int)
    requires
        buf.len() - off < HEADER_SIZE,
    ensures
        files_from(buf, erase_byte, off) == Seq::<Result<FileModel, Status>>::empty(),
{
}

/// Behind a file the iteration goes on at the next multiple of 8 behind
/// the end of the file.
pub proof fn lemma_next_file_offset(buf: Seq<u8>, erase_byte: u8, off: int)
    requires
        files_from(buf, erase_byte, off).len() > 0,
        files_from(buf, erase_byte, off)[0] is Ok,
    ensures
        parse_file(buf.subrange(off, buf.len() as int)) == files_from(buf, erase_byte, off)[0],
        files_from(buf, erase_byte, off).drop_first() == files_from(
            buf,
            erase_byte,
            spec_align_up(off + files_from(buf, erase_byte, off)[0]->Ok_0.size, 8),
        ),
{
    let file = parse_file(buf.subrange(off, buf.len() as int))->Ok_0;
    let rest = files_from(buf, erase_byte, spec_align_up(off + file.size, 8));
    assert((seq![Ok::<FileModel, Status>(file)] + rest).drop_first() =~= rest);
}

/// An error ends the sequence of the items of an iteration: no item but the
/// last is an error.
pub proof fn lemma_file_errors_come_last(buf: Seq<u8>, erase_byte: u8, off: int)
    ensures
        forall|i: int|
            0 <= i < files_from(buf, erase_byte, off).len() - 1 ==> (#[trigger] files_from(
                buf,
                erase_byte,
                off,
            )[i]) is Ok,
    decreases bytes_left(buf, off),
{
    let all = files_from(buf, erase_byte, off);
    if all.len() > 0 {
        match parse_file(buf.subrange(off, buf.len() as int)) {
            Err(e) => {},
            Ok(file) => {
                let next = spec_align_up(off + file.size, 8);
                lemma_align_bounds(off + file.size, 8);
                lemma_file_errors_come_last(buf, erase_byte, next);
                let rest = files_from(buf, erase_byte, next);
                assert forall|i: int| 0 <= i < all.len() - 1 implies (#[trigger] all[i]) is Ok by {
                    if i > 0 {
                        assert(all[i] == rest[i - 1]);
                    }
                }
            },
        }
    }
}

/// The offset at which the iteration goes on behind the file at `off`.
pub open spec fn offset_behind(buf: Seq<u8>, off: int) -> int {
    match parse_file(buf.subrange(off, buf.len() as int)) {
        Ok(file) => spec_align_up(off + file.size, 8),
        Err(_) => off,
    }
}

/// The offset of the file with the number `i` among the files that lie one
/// behind the other from offset `off` on.
pub open spec fn file_offset(buf: Seq<u8>, off: int, i: nat) -> int
    decreases i,
{
    if i == 0 {
        off
    } else {
        offset_behind(buf, file_offset(buf, off, (i - 1) as nat))
    }
}

/// From offset `off` on, `buf` holds `n` files that parse, one behind the
/// other, and behind the last of them nothing but erase bytes.
pub open spec fn holds_files_then_erased(buf: Seq<u8>, erase_byte: u8, off: int, n: nat) -> bool {
    &&& forall|i: nat|
        i < n ==> {
            &&& 0 <= #[trigger] file_offset(buf, off, i)
            &&& file_offset(buf, off, i) + HEADER_SIZE <= buf.len()
            &&& parse_file(buf.subrange(file_offset(buf, off, i), buf.len() as int)) is Ok
        }
    &&& 0 <= file_offset(buf, off, n)
    &&& forall|j: int| file_offset(buf, off, n) <= j < buf.len() ==> buf[j] == erase_byte
}

/// The files from `off` on, without the first, are the files from the offset
/// behind the first on.
proof fn lemma_file_offset_shift(buf: Seq<u8>, off: int, i: nat)
    ensures
        file_offset(buf, off, i + 1) == file_offset(buf, offset_behind(buf, off), i),
    decreases i,
{
    let next = offset_behind(buf, off);
    if i > 0 {
        lemma_file_offset_shift(buf, off, (i - 1) as nat);
        assert(file_offset(buf, off, i) == file_offset(buf, next, (i - 1) as nat));
        assert(file_offset(buf, off, i + 1) == offset_behind(buf, file_offset(buf, off, i)));
        assert(file_offset(buf, next, i) == offset_behind(
            buf,
            file_offset(buf, next, (i - 1) as nat),
        ));
    } else {
        assert(file_offset(buf, off, 0) == off);
        assert(file_offset(buf, off, 1) == offset_behind(buf, file_offset(buf, off, 0)));
        assert(file_offset(buf, next, 0) == next);
    }
}

/// The header of a file that parses does not consist of erase bytes.
proof fn lemma_file_header_is_not_erased(sub: Seq<u8>, erase_byte: u8)
    requires
        erase_byte == 0 || erase_byte == 0xFF,
        parse_file(sub) is Ok,
    ensures
        sub[23] != erase_byte,
{
    assert(0u8 & 0x80 == 0 && 0u8 & 0xFC == 0) by (bit_vector);
    assert(0xFFu8 & 0x80 != 0 && (!0xFFu8) & 0xFC == 0) by (bit_vector);
}

/// A buffer that holds `n` files that parse, and behind them nothing but
/// erase bytes, yields these `n` files and then ends without an error.
pub proof fn lemma_files_then_erased(buf: Seq<u8>, erase_byte: u8, off: int, n: nat)
    requires
        erase_byte == 0 || erase_byte == 0xFF,
        holds_files_then_erased(buf, erase_byte, off, n),
    ensures
        files_from(buf, erase_byte, off).len() == n,
        forall|i: nat|
            i < n ==> #[trigger] files_from(buf, erase_byte, off)[i as int] == parse_file(
                buf.subrange(file_offset(buf, off, i), buf.len() as int),
            ) && files_from(buf, erase_byte, off)[i as int] is Ok,
    decreases n,
{
    let all = files_from(buf, erase_byte, off);
    if n == 0 {
        assert(file_offset(buf, off, 0) == off);
        if buf.len() - off >= HEADER_SIZE {
            assert(all_bytes_are(buf, off, HEADER_SIZE as int, erase_byte));
        }
    } else {
        assert(file_offset(buf, off, 0) == off);
        let sub = buf.subrange(off, buf.len() as int);
        let file = parse_file(sub)->Ok_0;
        lemma_file_header_is_not_erased(sub, erase_byte);
        assert(sub[23] == buf[off + 23]);
        assert(!all_bytes_are(buf, off, HEADER_SIZE as int, erase_byte));
        let next = offset_behind(buf, off);
        let rest = files_from(buf, erase_byte, next);
        assert(all == seq![Ok::<FileModel, Status>(file)] + rest);
        let m = (n - 1) as nat;
        assert forall|i: nat| i < m implies {
            &&& 0 <= #[trigger] file_offset(buf, next, i)
            &&& file_offset(buf, next, i) + HEADER_SIZE <= buf.len()
            &&& parse_file(buf.subrange(file_offset(buf, next, i), buf.len() as int)) is Ok
        } by {
            lemma_file_offset_shift(buf, off, i);
            assert(file_offset(buf, off, i + 1) == file_offset(buf, next, i));
        }
        lemma_file_offset_shift(buf, off, m);
        assert(file_offset(buf, next, m) == file_offset(buf, off, n));
        lemma_files_then_erased(buf, erase_byte, next, m);
        assert forall|i: nat| i < n implies #[trigger] all[i as int] == parse_file(
            buf.subrange(file_offset(buf, off, i), buf.len() as int),
        ) && all[i as int] is Ok by {
            if i > 0 {
                let k = (i - 1) as nat;
                lemma_file_offset_shift(buf, off, k);
                assert(all[i as int] == rest[k as int]);
            }
        }
    }
}

/// An iterator over the firmware files in a buffer.
pub struct FvFileIterator<'a> {
    buffer: &'a [u8],
    erase_byte: u8,
    next_offset: usize,
    error: bool,
}

impl<'a> View for FvFileIterator<'a> {
    type V = Seq<Result<FileModel, Status>>;

    /// What the iterator has yet to yield.
    closed spec fn view(&self) -> Seq<Result<FileModel, Status>> {
        if self.error {
            Seq::empty()
        } else {
            files_from(self.buffer@, self.erase_byte, self.next_offset as int)
        }
    }
}

impl<'a> FvFileIterator<'a> {
    /// An iterator over the files in `buffer`, the first of which starts at
    /// offset 0. `erase_byte` is the value of the bytes of erased flash.
    pub fn new(buffer: &'a [u8], erase_byte: u8) -> (it: FvFileIterator<'a>)
        ensures
            it@ == files_from(buffer@, erase_byte, 0),
    {
        FvFileIterator { buffer, erase_byte, next_offset: 0, error: false }
    }

    /// Yields the next file, or the error that ends the iteration.
    ///
    /// A parse failure is yielded once; after it the iterator yields nothing.
    pub fn next(&mut self) -> (r: Option<Result<File<'a>, Status>>)
        ensures
            old(self)@.len() == 0 ==> r is None && final(self)@ == old(self)@,
            old(self)@.len() > 0 ==> r is Some && file_result_view(r->0) == old(self)@[0]
                && final(self)@ == old(self)@.drop_first(),
            r is Some && r->0 is Err ==> final(self)@.len() == 0,
    {
        if self.error {
            return None;
        }
        let len = self.buffer.len();
        if self.next_offset > len {
            return None;
        }
        if len - self.next_offset < HEADER_SIZE {
            return None;
        }
        if bytes_all_equal(self.buffer, self.next_offset, HEADER_SIZE, self.erase_byte) {
            return None;
        }
        let result = File::new(slice_subrange(self.buffer, self.next_offset, len));
        match &result {
            Ok(file) => {
                // per the PI spec, "Given a file F, the next file FvHeader is located at the next 8-byte aligned firmware volume
                // offset following the last byte the file F"
                let size = file.size();
                let ghost base = self.next_offset as int;
                proof {
                    lemma_common_alignments();
                    lemma_align_bounds(base + size, 8);
                }
                let ghost rest = files_from(
                    self.buffer@,
                    self.erase_byte,
                    spec_align_up(base + size, 8),
                );
                assert(old(self)@ == seq![Ok::<FileModel, Status>(file@)] + rest);
                let end: u64 = self.next_offset as u64 + size;
                if end > u64::MAX - 7 {
                    proof {
                        lemma_files_from_end(
                            self.buffer@,
                            self.erase_byte,
                            spec_align_up(base + size, 8),
                        );
                    }
                    self.error = true;
                } else {
                    let aligned = align_up(end, 8);
                    if aligned > usize::MAX as u64 {
                        proof {
                            lemma_files_from_end(self.buffer@, self.erase_byte, aligned as int);
                        }
                        self.error = true;
                    } else {
                        self.next_offset = aligned as usize;
                    }
                }
                assert(self@ == rest);
                assert(self@ =~= old(self)@.drop_first());
            },
            Err(_) => {
                self.error = true;
                assert(self@ =~= old(self)@.drop_first());
            },
        }
        Some(result)
    }
}

} // verus!
