//! The bookkeeping of a mermaid-fixing run: what happens to a file's content
//! and counts as its blocks are validated and fixed, and the totals of a run.
use vstd::prelude::*;
use crate::text::{replace_all, replace_str};

verus! {

#[derive(Debug)]
pub struct ProcessResult {
    pub total_files: usize,
    pub total_mermaid_blocks: usize,
    pub invalid_blocks: usize,
    pub fixed_blocks: usize,
}

/// The counts of one processed file.
#[derive(Debug, Clone, Copy, PartialEq, Eq, Structural)]
pub struct FileProcessResult {
    pub total_blocks: usize,
    pub invalid_blocks: usize,
    pub fixed_blocks: usize,
}

/// The state of a file while its blocks are processed: the counts so far,
/// its content with the fixes made so far, and whether it changed.
pub struct FileTally {
    pub invalid_blocks: usize,
    pub fixed_blocks: usize,
    pub content: String,
    pub modified: bool,
}

impl FileProcessResult {
    /// A file without mermaid blocks.
    pub fn empty() -> (r: Self)
        ensures
            r.total_blocks == 0 && r.invalid_blocks == 0 && r.fixed_blocks == 0,
    {
        FileProcessResult { total_blocks: 0, invalid_blocks: 0, fixed_blocks: 0 }
    }
}

impl FileTally {
    /// The state before the first block of a file with this content.
    pub fn new(content: String) -> (r: Self)
        ensures
            r.invalid_blocks == 0,
            r.fixed_blocks == 0,
            r.content@ == content@,
            !r.modified,
    {
        FileTally { invalid_blocks: 0, fixed_blocks: 0, content, modified: false }
    }

    /// Records the validation of a block: an invalid block is counted.
    /// Returns whether a fix is to be asked for: for an invalid block, unless
    /// this is a dry run or there is no fixer.
    pub fn record_validation(&mut self, valid: bool, dry_run: bool, has_fixer: bool) -> (ask_fix: bool)
        requires
            !valid ==> old(self).invalid_blocks < usize::MAX,
        ensures
            final(self).invalid_blocks == old(self).invalid_blocks + if valid { 0int } else { 1int },
            final(self).fixed_blocks == old(self).fixed_blocks,
            final(self).content@ == old(self).content@,
            final(self).modified == old(self).modified,
            ask_fix == (!valid && !dry_run && has_fixer),
    {
        if valid {
            return false;
        }
        self.invalid_blocks = self.invalid_blocks + 1;
        !dry_run && has_fixer
    }

    /// Records a fix of the block `original_code`: when the fixed code
    /// validated, every occurrence of the block's code in the content is
    /// replaced by it, the fix is counted and the file is marked changed;
    /// otherwise nothing changes.
    pub fn record_fix(&mut self, original_code: &str, fixed_code: &str, fixed_valid: bool)
        requires
            fixed_valid ==> old(self).fixed_blocks < usize::MAX,
        ensures
            final(self).invalid_blocks == old(self).invalid_blocks,
            fixed_valid ==> {
                &&& final(self).content@ == replace_all(old(self).content@, original_code@, fixed_code@)
                &&& final(self).fixed_blocks == old(self).fixed_blocks + 1
                &&& final(self).modified
            },
            !fixed_valid ==> {
                &&& final(self).content@ == old(self).content@
                &&& final(self).fixed_blocks == old(self).fixed_blocks
                &&& final(self).modified == old(self).modified
            },
    {
        if fixed_valid {
            let updated = replace_str(self.content.as_str(), original_code, fixed_code);
            self.content = updated;
            self.modified = true;
            self.fixed_blocks = self.fixed_blocks + 1;
        }
    }

    /// The counts of the file, which had `total_blocks` blocks.
    pub fn result(&self, total_blocks: usize) -> (r: FileProcessResult)
        ensures
            r.total_blocks == total_blocks,
            r.invalid_blocks == self.invalid_blocks,
            r.fixed_blocks == self.fixed_blocks,
    {
        FileProcessResult {
            total_blocks,
            invalid_blocks: self.invalid_blocks,
            fixed_blocks: self.fixed_blocks,
        }
    }
}

/// Sum of the block counts of the files.
pub open spec fn sum_blocks(rs: Seq<FileProcessResult>) -> int
    decreases rs.len(),
{
    if rs.len() == 0 {
        0
    } else {
        sum_blocks(rs.drop_last()) + rs.last().total_blocks
    }
}

/// Sum of the invalid-block counts of the files.
pub open spec fn sum_invalid(rs: Seq<FileProcessResult>) -> int
    decreases rs.len(),
{
    if rs.len() == 0 {
        0
    } else {
        sum_invalid(rs.drop_last()) + rs.last().invalid_blocks
    }
}

/// Sum of the fixed-block counts of the files.
pub open spec fn sum_fixed(rs: Seq<FileProcessResult>) -> int
    decreases rs.len(),
{
    if rs.len() == 0 {
        0
    } else {
        sum_fixed(rs.drop_last()) + rs.last().fixed_blocks
    }
}

/// The three sums fit in a `usize`.
pub open spec fn sums_fit(rs: Seq<FileProcessResult>) -> bool {
    sum_blocks(rs) <= usize::MAX && sum_invalid(rs) <= usize::MAX && sum_fixed(rs) <= usize::MAX
}

pub proof fn lemma_sums_prefix(rs: Seq<FileProcessResult>, k: int)
    requires
        0 <= k <= rs.len(),
    ensures
        sum_blocks(rs.take(k)) <= sum_blocks(rs),
        sum_invalid(rs.take(k)) <= sum_invalid(rs),
        sum_fixed(rs.take(k)) <= sum_fixed(rs),
        0 <= sum_blocks(rs.take(k)),
        0 <= sum_invalid(rs.take(k)),
        0 <= sum_fixed(rs.take(k)),
    decreases rs.len() - k,
{
    lemma_sums_nonneg(rs.take(k));
    if k < rs.len() {
        lemma_sums_prefix(rs, k + 1);
        assert(rs.take(k + 1).drop_last() =~= rs.take(k));
    } else {
        assert(rs.take(k) =~= rs);
        lemma_sums_nonneg(rs);
    }
}

pub proof fn lemma_sums_nonneg(rs: Seq<FileProcessResult>)
    ensures
        0 <= sum_blocks(rs),
        0 <= sum_invalid(rs),
        0 <= sum_fixed(rs),
    decreases rs.len(),
{
    if rs.len() > 0 {
        lemma_sums_nonneg(rs.drop_last());
    }
}

/// When every file fixed no more blocks than it found invalid, and found no
/// more invalid blocks than it had, the totals keep the same order.
pub proof fn law_totals_keep_order(files: Seq<FileProcessResult>)
    requires
        forall|i: int|
            0 <= i < files.len() ==> #[trigger] files[i].fixed_blocks <= files[i].invalid_blocks
                <= files[i].total_blocks,
    ensures
        sum_fixed(files) <= sum_invalid(files) <= sum_blocks(files),
    decreases files.len(),
{
    if files.len() > 0 {
        let init = files.drop_last();
        assert forall|i: int|
            0 <= i < init.len() implies #[trigger] init[i].fixed_blocks <= init[i].invalid_blocks
                <= init[i].total_blocks by {
            assert(init[i] == files[i]);
        }
        law_totals_keep_order(init);
        assert(files.last() == files[files.len() - 1]);
    }
}

/// The totals of a run over the files whose counts are given: the number of
/// files and the sums of their counts, or `None` when a sum does not fit in
/// a `usize`.
pub fn summarize(files: &Vec<FileProcessResult>) -> (r: Option<ProcessResult>)
    ensures
        r is Some <==> sums_fit(files@),
        r matches Some(p) ==> {
            &&& p.total_files == files@.len()
            &&& p.total_mermaid_blocks == sum_blocks(files@)
            &&& p.invalid_blocks == sum_invalid(files@)
            &&& p.fixed_blocks == sum_fixed(files@)
        },
{
    let mut blocks: usize = 0;
    let mut invalid: usize = 0;
    let mut fixed: usize = 0;
    let mut i: usize = 0;
    assert(files@.take(0) =~= Seq::<FileProcessResult>::empty());
    while i < files.len()
        invariant
            i <= files@.len(),
            blocks == sum_blocks(files@.take(i as int)),
            invalid == sum_invalid(files@.take(i as int)),
            fixed == sum_fixed(files@.take(i as int)),
        decreases files@.len() - i,
    {
        let f = files[i];
        proof {
            assert(files@.take(i + 1).drop_last() =~= files@.take(i as int));
            assert(files@.take(i + 1).last() == f);
            lemma_sums_prefix(files@, i + 1);
        }
        match blocks.checked_add(f.total_blocks) {
            Some(v) => blocks = v,
            None => return None,
        }
        match invalid.checked_add(f.invalid_blocks) {
            Some(v) => invalid = v,
            None => return None,
        }
        match fixed.checked_add(f.fixed_blocks) {
            Some(v) => fixed = v,
            None => return None,
        }
        i = i + 1;
    }
    assert(files@.take(files@.len() as int) =~= files@);
    Some(
        ProcessResult {
            total_files: files.len(),
            total_mermaid_blocks: blocks,
            invalid_blocks: invalid,
            fixed_blocks: fixed,
        },
    )
}

} // verus!
