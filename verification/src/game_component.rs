//! The asset synchronization engine's decision logic: which resources a
//! local game tree still needs (checksum verification), how the
//! to-download set is cut into bounded batches, and how the absolute
//! per-file progress numbers of concurrently downloading files are
//! aggregated into one total. The application performs the file reads,
//! deletions and HTTP transfers that these decisions call for.

use vstd::prelude::*;

use crate::manifest::Resource;
use crate::manifest::Resources;

verus! {

/// Lowercase hexadecimal MD5 digest of a byte sequence, as the checksum
/// library computes it; a function of the bytes alone.
pub uninterp spec fn md5_hex_of(data: Seq<u8>) -> Seq<char>;

/// Relies on `chksum_md5::hash` and `chksum_md5::Digest::to_hex_lowercase`:
/// the digest of in-memory bytes depends on the bytes alone, and
/// `to_hex_lowercase` renders it as lowercase hexadecimal.
#[verifier::external_body]
fn md5_hex(data: &[u8]) -> (r: String)
    ensures
        r@ == md5_hex_of(data@),
{
    chksum_md5::hash(data).to_hex_lowercase()
}

/// What the application observed about one resource's destination file:
/// the file is absent, or it is present with the given digest of its
/// bytes.
#[derive(Debug, Clone, PartialEq, Eq)]
pub enum FileStatus {
    Missing,
    Present { digest: String },
}

/// Digest and wrap the bytes of an existing destination file.
pub fn hash_status(data: &[u8]) -> (s: FileStatus)
    ensures
        s matches FileStatus::Present { digest } && digest@ == md5_hex_of(data@),
{
    FileStatus::Present { digest: md5_hex(data) }
}

impl Resource {
    /// Does a digest satisfy this resource's manifest checksum?
    pub fn matches_digest(&self, digest: &String) -> (m: bool)
        ensures
            m == (digest@ == self.md5@),
    {
        *digest == self.md5
    }

    /// Do the bytes of a file satisfy this resource's manifest
    /// checksum?
    pub fn verify_file_bytes(&self, data: &[u8]) -> (m: bool)
        ensures
            m == (md5_hex_of(data@) == self.md5@),
    {
        let digest = md5_hex(data);
        self.matches_digest(&digest)
    }
}

/// A resource must be downloaded when its file is absent or its bytes
/// do not match the manifest checksum.
pub open spec fn needs_download(r: Resource, s: FileStatus) -> bool {
    match s {
        FileStatus::Missing => true,
        FileStatus::Present { digest } => digest@ != r.md5@,
    }
}

/// A present file whose bytes do not match the checksum is deleted
/// before the download, so that no corrupt file coexists with a
/// "resource satisfied" determination.
pub open spec fn should_delete(r: Resource, s: FileStatus) -> bool {
    s matches FileStatus::Present { digest } && digest@ != r.md5@
}

/// The resources of `rs` that must be downloaded, in manifest order.
pub open spec fn spec_to_download(rs: Seq<Resource>, ss: Seq<FileStatus>) -> Seq<Resource>
    decreases rs.len(),
{
    if rs.len() == 0 {
        Seq::empty()
    } else {
        let rest = spec_to_download(rs.drop_last(), ss.drop_last());
        if needs_download(rs.last(), ss.last()) {
            rest.push(rs.last())
        } else {
            rest
        }
    }
}

/// The destination paths of the present-but-corrupt files of `rs`, in
/// manifest order.
pub open spec fn spec_to_delete(rs: Seq<Resource>, ss: Seq<FileStatus>) -> Seq<String>
    decreases rs.len(),
{
    if rs.len() == 0 {
        Seq::empty()
    } else {
        let rest = spec_to_delete(rs.drop_last(), ss.drop_last());
        if should_delete(rs.last(), ss.last()) {
            rest.push(rs.last().dest)
        } else {
            rest
        }
    }
}

/// Outcome of the verification phase: what to fetch and what to remove
/// first.
#[derive(Debug)]
pub struct DownloadPlan {
    pub to_download: Vec<Resource>,
    pub to_delete: Vec<String>,
}

/// The game's asset tree inside the chosen installation directory.
pub struct GameComponent {
    pub game_dir: String,
}

impl GameComponent {
    /// The game's own directory under the chosen installation
    /// directory.
    pub fn new(game_dir: String) -> (c: GameComponent)
        ensures
            c.game_dir@ == game_dir@ + "/"@ + "PGR"@,
    {
        let dir = crate::join_path(game_dir.as_str(), crate::get_game_name().as_str());
        GameComponent { game_dir: dir }
    }

    /// The verification phase's decision: from the manifest and one
    /// observation per resource, the exact set of resources to download
    /// and of corrupt files to delete, both in manifest order. A
    /// resource is downloaded if and only if its file is absent or its
    /// digest mismatches; a file is deleted if and only if it is
    /// present and mismatches.
    pub fn check_and_get_resources_to_download(
        resources: &Resources,
        status: &Vec<FileStatus>,
    ) -> (plan: DownloadPlan)
        requires
            status@.len() == resources.resource@.len(),
        ensures
            plan.to_download@ == spec_to_download(resources.resource@, status@),
            plan.to_delete@ == spec_to_delete(resources.resource@, status@),
    {
        let rs = &resources.resource;
        let mut to_download: Vec<Resource> = Vec::new();
        let mut to_delete: Vec<String> = Vec::new();
        let mut i: usize = 0;
        while i < rs.len()
            invariant
                0 <= i <= rs@.len(),
                status@.len() == rs@.len(),
                to_download@ == spec_to_download(rs@.take(i as int), status@.take(i as int)),
                to_delete@ == spec_to_delete(rs@.take(i as int), status@.take(i as int)),
            decreases rs@.len() - i,
        {
            proof {
                assert(rs@.take(i + 1).drop_last() =~= rs@.take(i as int));
                assert(status@.take(i + 1).drop_last() =~= status@.take(i as int));
                assert(rs@.take(i + 1).last() == rs@[i as int]);
                assert(status@.take(i + 1).last() == status@[i as int]);
            }
            match &status[i] {
                FileStatus::Missing => {
                    to_download.push(rs[i].clone());
                },
                FileStatus::Present { digest } => {
                    if !rs[i].matches_digest(digest) {
                        to_download.push(rs[i].clone());
                        to_delete.push(rs[i].dest.clone());
                    }
                },
            }
            i = i + 1;
        }
        proof {
            assert(rs@.take(rs@.len() as int) =~= rs@);
            assert(status@.take(status@.len() as int) =~= status@);
        }
        DownloadPlan { to_download, to_delete }
    }
}

/// The to-download list cut into batches of at most `n` resources, in
/// order: every batch but the last holds exactly `n`.
pub open spec fn spec_chunks(rs: Seq<Resource>, n: int) -> Seq<Seq<Resource>>
    decreases rs.len(),
{
    if n <= 0 || rs.len() == 0 {
        Seq::empty()
    } else if rs.len() <= n {
        seq![rs]
    } else {
        seq![rs.take(n)] + spec_chunks(rs.skip(n), n)
    }
}

/// Batching loses and reorders nothing: the batches of `rs`
/// concatenated back together are exactly `rs`.
pub proof fn lemma_chunks_flatten(rs: Seq<Resource>, n: int)
    requires
        n > 0,
    ensures
        spec_chunks(rs, n).flatten() == rs,
    decreases rs.len(),
{
    if rs.len() == 0 {
        assert(spec_chunks(rs, n).flatten() =~= rs);
    } else if rs.len() <= n {
        spec_chunks(rs, n).lemma_flatten_one_element();
        assert(spec_chunks(rs, n).flatten() =~= rs);
    } else {
        lemma_chunks_flatten(rs.skip(n), n);
        let chunked = spec_chunks(rs, n);
        assert(chunked.first() == rs.take(n));
        assert(chunked.drop_first() =~= spec_chunks(rs.skip(n), n));
        assert(chunked.flatten() =~= rs.take(n) + rs.skip(n));
        assert(rs.take(n) + rs.skip(n) =~= rs);
    }
}

/// Cut the to-download list into batches of at most `n` resources.
/// Download batches run one after another; inside a batch the files
/// download concurrently, so `n` bounds the in-flight transfers.
pub fn chunks_of(resources: &Vec<Resource>, n: usize) -> (chunks: Vec<Vec<Resource>>)
    requires
        n > 0,
    ensures
        chunks@.map_values(|c: Vec<Resource>| c@) == spec_chunks(resources@, n as int),
{
    let rs = resources;
    let mut chunks: Vec<Vec<Resource>> = Vec::new();
    let mut i: usize = 0;
    proof {
        assert(rs@.skip(0) =~= rs@);
        assert(chunks@.map_values(|c: Vec<Resource>| c@) + spec_chunks(rs@, n as int)
            =~= spec_chunks(rs@, n as int));
    }
    while i < rs.len()
        invariant
            0 <= i <= rs@.len(),
            n > 0,
            spec_chunks(rs@, n as int) == chunks@.map_values(|c: Vec<Resource>| c@)
                + spec_chunks(rs@.skip(i as int), n as int),
        decreases rs@.len() - i,
    {
        let ghost pre_chunks = chunks@;
        let remaining = rs.len() - i;
        let c = if remaining < n {
            remaining
        } else {
            n
        };
        let mut chunk: Vec<Resource> = Vec::new();
        let mut k: usize = 0;
        while k < c
            invariant
                0 <= k <= c,
                i + c <= rs.len(),
                chunk@ == rs@.subrange(i as int, i + k),
            decreases c - k,
        {
            proof {
                assert(rs@.subrange(i as int, i + k + 1).drop_last() =~= rs@.subrange(
                    i as int,
                    i + k,
                ));
                assert(rs@.subrange(i as int, i + k + 1).last() == rs@[i + k]);
            }
            chunk.push(rs[i + k].clone());
            k = k + 1;
        }
        proof {
            let tail = rs@.skip(i as int);
            assert(chunk@ =~= tail.take(c as int));
            if tail.len() <= n {
                assert(spec_chunks(tail, n as int) == seq![tail]);
                assert(chunk@ =~= tail);
                assert(rs@.skip(i + c).len() == 0);
                assert(spec_chunks(rs@.skip(i + c), n as int) =~= Seq::<Seq<Resource>>::empty());
            } else {
                assert(spec_chunks(tail, n as int) == seq![tail.take(n as int)] + spec_chunks(
                    tail.skip(n as int),
                    n as int,
                ));
                assert(tail.skip(n as int) =~= rs@.skip(i + c));
            }
            assert(pre_chunks.push(chunk).map_values(|v: Vec<Resource>| v@) =~= pre_chunks.map_values(
                |v: Vec<Resource>| v@,
            ).push(chunk@));
            assert(pre_chunks.push(chunk).map_values(|v: Vec<Resource>| v@) + spec_chunks(
                rs@.skip(i + c),
                n as int,
            ) =~= spec_chunks(rs@, n as int));
        }
        chunks.push(chunk);
        i = i + c;
    }
    proof {
        assert(rs@.skip(i as int).len() == 0);
        assert(spec_chunks(rs@.skip(i as int), n as int) =~= Seq::<Seq<Resource>>::empty());
        assert(chunks@.map_values(|c: Vec<Resource>| c@) =~= spec_chunks(rs@, n as int));
    }
    chunks
}

/// Sum of a sequence of byte counts.
pub open spec fn sum64(s: Seq<u64>) -> int
    decreases s.len(),
{
    if s.len() == 0 {
        0
    } else {
        sum64(s.drop_last()) + s.last()
    }
}

pub proof fn lemma_sum64_nonneg(s: Seq<u64>)
    ensures
        sum64(s) >= 0,
    decreases s.len(),
{
    if s.len() > 0 {
        lemma_sum64_nonneg(s.drop_last());
    }
}

/// Replacing one element changes the sum by the difference of that one
/// element.
pub proof fn lemma_sum64_update(s: Seq<u64>, i: int, v: u64)
    requires
        0 <= i < s.len(),
    ensures
        sum64(s.update(i, v)) == sum64(s) - s[i] + v,
    decreases s.len(),
{
    if i == s.len() - 1 {
        assert(s.update(i, v).drop_last() =~= s.drop_last());
        assert(s.update(i, v).last() == v);
    } else {
        assert(s.update(i, v).drop_last() =~= s.drop_last().update(i, v));
        assert(s.update(i, v).last() == s.last());
        lemma_sum64_update(s.drop_last(), i, v);
    }
}

/// A pointwise-bounded sequence has a bounded sum.
pub proof fn lemma_sum64_le(s1: Seq<u64>, s2: Seq<u64>)
    requires
        s1.len() == s2.len(),
        forall|i: int| 0 <= i < s1.len() ==> s1[i] <= s2[i],
    ensures
        sum64(s1) <= sum64(s2),
    decreases s1.len(),
{
    if s1.len() > 0 {
        lemma_sum64_le(s1.drop_last(), s2.drop_last());
    }
}

/// One element never exceeds the whole sum.
pub proof fn lemma_sum64_element(s: Seq<u64>, i: int)
    requires
        0 <= i < s.len(),
    ensures
        s[i] <= sum64(s),
{
    lemma_sum64_update(s, i, 0);
    lemma_sum64_nonneg(s.update(i, 0));
}

/// The aggregate progress of many concurrently downloading files.
///
/// Every file reports its own absolute byte count; the aggregator keeps
/// the last value of each and one running total that always equals
/// their sum, so that no interleaving of reports can double-count.
#[derive(Debug)]
pub struct GlobalReporter {
    pub file_progress: Vec<u64>,
    pub file_sizes: Vec<u64>,
    pub current_progress: u64,
    pub to_download_max_size: u64,
}

impl GlobalReporter {
    /// The aggregator's invariant: one entry per file, no file past its
    /// size, the total equal to the sum of the per-file values, and the
    /// advertised maximum equal to the sum of the sizes.
    pub open spec fn wf(&self) -> bool {
        &&& self.file_progress@.len() == self.file_sizes@.len()
        &&& forall|i: int|
            0 <= i < self.file_progress@.len() ==> self.file_progress@[i] <= self.file_sizes@[i]
        &&& self.current_progress == sum64(self.file_progress@)
        &&& self.to_download_max_size == sum64(self.file_sizes@)
    }

    /// Start aggregating for files of the given sizes, all at zero
    /// bytes. Returns nothing when the combined size does not fit the
    /// byte counter, which is the one machine limit.
    pub fn new(file_sizes: Vec<u64>) -> (r: Option<GlobalReporter>)
        ensures
            r is Some <==> sum64(file_sizes@) <= u64::MAX,
            r matches Some(g) ==> g.wf() && g.file_sizes@ == file_sizes@
                && g.current_progress == 0,
    {
        let mut total: u64 = 0;
        let mut progress: Vec<u64> = Vec::new();
        let mut i: usize = 0;
        while i < file_sizes.len()
            invariant
                0 <= i <= file_sizes@.len(),
                total == sum64(file_sizes@.take(i as int)),
                progress@ == Seq::new(i as nat, |j: int| 0u64),
                sum64(progress@) == 0,
            decreases file_sizes@.len() - i,
        {
            proof {
                assert(file_sizes@.take(i + 1).drop_last() =~= file_sizes@.take(i as int));
                assert(file_sizes@.take(i + 1).last() == file_sizes@[i as int]);
                assert(progress@.push(0u64).drop_last() =~= progress@);
                assert(progress@.push(0u64) =~= Seq::new((i + 1) as nat, |j: int| 0u64));
            }
            let next = total.checked_add(file_sizes[i]);
            match next {
                Some(t) => {
                    total = t;
                },
                None => {
                    proof {
                        lemma_sum64_take_ge(file_sizes@, i + 1);
                    }
                    return None;
                },
            }
            progress.push(0u64);
            i = i + 1;
        }
        proof {
            assert(file_sizes@.take(file_sizes@.len() as int) =~= file_sizes@);
        }
        Some(
            GlobalReporter {
                file_progress: progress,
                file_sizes,
                current_progress: 0,
                to_download_max_size: total,
            },
        )
    }

    /// Take one file's new absolute byte count and fold it into the
    /// total: the total grows by exactly the file's delta and stays the
    /// sum of the per-file values. Returns the new total, the number a
    /// user-facing progress bar shows.
    pub fn update(&mut self, file: usize, new_value: u64) -> (emit: u64)
        requires
            old(self).wf(),
            file < old(self).file_progress@.len(),
            old(self).file_progress@[file as int] <= new_value,
            new_value <= old(self).file_sizes@[file as int],
        ensures
            final(self).wf(),
            final(self).file_progress@ == old(self).file_progress@.update(file as int, new_value),
            final(self).file_sizes@ == old(self).file_sizes@,
            final(self).to_download_max_size == old(self).to_download_max_size,
            emit == final(self).current_progress,
            final(self).current_progress == old(self).current_progress - old(
                self,
            ).file_progress@[file as int] + new_value,
    {
        let old_value = self.file_progress[file];
        proof {
            lemma_sum64_element(self.file_progress@, file as int);
            lemma_sum64_update(self.file_progress@, file as int, new_value);
            lemma_sum64_le(
                self.file_progress@.update(file as int, new_value),
                self.file_sizes@,
            );
        }
        self.file_progress.set(file, new_value);
        self.current_progress = self.current_progress - old_value + new_value;
        self.current_progress
    }
}

/// A prefix sum is no more than the whole sum: what follows is
/// nonnegative.
pub proof fn lemma_sum64_take_ge(s: Seq<u64>, i: int)
    requires
        0 <= i <= s.len(),
    ensures
        sum64(s.take(i)) <= sum64(s),
    decreases s.len() - i,
{
    if i < s.len() {
        assert(s.take(i + 1).drop_last() =~= s.take(i));
        assert(s.take(i + 1).last() == s[i]);
        lemma_sum64_take_ge(s, i + 1);
    } else {
        assert(s.take(i) =~= s);
    }
}

/// The aggregated total is a function of the final per-file values
/// alone: two aggregators whose files ended at the same absolute
/// values report the same total, whatever the interleaving of the
/// reports that led there. In particular the final total is the sum of
/// every file's last absolute value, never a double count.
pub proof fn lemma_aggregation_order_independent(g1: GlobalReporter, g2: GlobalReporter)
    requires
        g1.wf(),
        g2.wf(),
        g1.file_progress@ == g2.file_progress@,
    ensures
        g1.current_progress == g2.current_progress,
        g1.current_progress == sum64(g1.file_progress@),
{
}

} // verus!
