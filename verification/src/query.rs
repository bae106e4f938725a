use vstd::prelude::*;
use crate::row::{LogRow, LogRowModel};
use crate::pq::{pq_rows, decode_file};

verus! {

/// The rows of a sequence of file contents, in file order; a buffer that does
/// not decode contributes nothing.
pub open spec fn spec_all_rows(files: Seq<Seq<u8>>) -> Seq<LogRowModel>
    decreases files.len(),
{
    if files.len() == 0 {
        Seq::empty()
    } else {
        spec_all_rows(files.drop_last()) + (match pq_rows(files.last()) {
            Some(rows) => rows,
            None => Seq::empty(),
        })
    }
}

/// Read interface over the files the storage engine produced. The directory
/// is scanned by the caller; the engine decodes the contents.
pub struct QueryEngine {
    storage_dir: String,
}

impl QueryEngine {
    /// The directory this engine reads.
    pub closed spec fn dir(self) -> Seq<char> {
        self.storage_dir@
    }

    pub fn new(storage_dir: String) -> (r: Self)
        ensures
            r.dir() == storage_dir@,
    {
        QueryEngine { storage_dir }
    }

    /// Decode one file's contents into its rows. A complete, readable file of
    /// the log schema yields exactly its rows, in order; anything else is
    /// rejected.
    pub fn read_file(&self, bytes: &Vec<u8>) -> (r: Result<Vec<LogRow>, String>)
        ensures
            r matches Ok(v) ==> pq_rows(bytes@) == Some(v@.map_values(|x: LogRow| x@)),
            r is Err ==> pq_rows(bytes@) is None,
            pq_rows(bytes@) is Some ==> r is Ok,
    {
        decode_file(bytes)
    }

    /// Decode every file, in the given order; a buffer that is not one
    /// complete, readable file of the log schema is skipped, as a corrupted
    /// file would be. The result is exactly the rows of the readable files,
    /// in order.
    pub fn read_all(&self, files: &Vec<Vec<u8>>) -> (r: Vec<LogRow>)
        ensures
            r@.map_values(|x: LogRow| x@) =~= spec_all_rows(files.deep_view()),
    {
        let n = files.len();
        let mut out: Vec<LogRow> = Vec::new();
        let mut i: usize = 0;
        proof {
            assert(files.deep_view().take(0) =~= Seq::<Seq<u8>>::empty());
        }
        while i < n
            invariant
                i <= n,
                n == files@.len(),
                files.deep_view().len() == n,
                out@.map_values(|x: LogRow| x@) =~= spec_all_rows(files.deep_view().take(i as int)),
            decreases n - i,
        {
            let ghost pre = out@;
            let ghost dv = files.deep_view();
            proof {
                assert(dv[i as int] == files@[i as int].deep_view());
                assert(files@[i as int].deep_view() =~= files@[i as int]@);
            }
            match self.read_file(&files[i]) {
                Ok(mut rows) => {
                    let ghost rs = rows@;
                    out.append(&mut rows);
                    proof {
                        assert(out@ =~= pre + rs);
                        assert(dv.take(i as int + 1).drop_last() =~= dv.take(i as int));
                        assert(dv.take(i as int + 1).last() == dv[i as int]);
                        assert(out@.map_values(|x: LogRow| x@) =~= pre.map_values(|x: LogRow| x@)
                            + rs.map_values(|x: LogRow| x@));
                        assert(out@.map_values(|x: LogRow| x@) =~= spec_all_rows(
                            dv.take(i as int + 1),
                        ));
                    }
                },
                Err(_) => {
                    proof {
                        assert(pq_rows(dv[i as int]) is None);
                        assert(dv.take(i as int + 1).drop_last() =~= dv.take(i as int));
                        assert(dv.take(i as int + 1).last() == dv[i as int]);
                        assert(out@.map_values(|x: LogRow| x@) =~= spec_all_rows(
                            dv.take(i as int + 1),
                        ));
                    }
                },
            }
            i += 1;
        }
        proof {
            assert(files.deep_view().take(n as int) =~= files.deep_view());
        }
        out
    }

    /// The total number of rows over all the readable files, the corrupted
    /// ones skipped: for files the storage engine produced, exactly the
    /// number of rows ever flushed into them.
    pub fn count_logs(&self, files: &Vec<Vec<u8>>) -> (n: usize)
        ensures
            n == spec_all_rows(files.deep_view()).len(),
    {
        let rows = self.read_all(files);
        rows.len()
    }
}

} // verus!
