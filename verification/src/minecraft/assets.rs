//! Asset objects and where each is fetched from and stored.
use crate::downloads::job::DownloadJob;
use crate::instance::export::{is_plain_file_name, plain_file_name};
use crate::error::MonoryxError;
use crate::storage::paths::{join, join_path};
use crate::text::{concat2, from_chars, is_hex_digit, is_hex_digit_exec, lit, slice_chars, to_chars};
use vstd::prelude::*;

verus! {

/// An asset index; `objects` maps an asset name to its object, each name
/// once.
#[derive(Debug, Clone)]
pub struct AssetIndex {
    pub objects: Vec<(String, AssetObject)>,
}

#[derive(Debug, Clone)]
pub struct AssetObject {
    pub hash: String,
    pub size: u64,
}

/// Where asset objects are downloaded from.
pub const RESOURCE_BASE: &'static str = "https://resources.download.minecraft.net";

/// A SHA-1 in hex: 40 hex digits.
pub open spec fn is_sha1_hex(s: Seq<char>) -> bool {
    s.len() == 40 && forall|i: int| 0 <= i < s.len() ==> is_hex_digit(#[trigger] s[i])
}

/// `j` fetches an asset object into `objects_dir`: stored and served under
/// its hash's first two digits, checked by hash and size.
pub open spec fn object_job(objects_dir: Seq<char>, name: Seq<char>, object: AssetObject, j: DownloadJob) -> bool {
    &&& j.label@ == "asset "@ + name
    &&& j.url@ == "https://resources.download.minecraft.net/"@ + object.hash@.take(2) + "/"@ + object.hash@
    &&& j.dest@ == join_path(join_path(objects_dir, object.hash@.take(2)), object.hash@)
    &&& j.expected_sha1 is Some
    &&& j.expected_sha1->0@ == object.hash@
    &&& j.expected_sha512 is None
    &&& j.expected_size == Some(object.size)
}

/// The job that fetches an asset object into `objects_dir`, stored and
/// served under its hash's first two digits, checked by hash and size;
/// `UnsafePath` naming the hash when it is not 40 hex digits.
pub fn asset_object_job(objects_dir: &str, name: &str, object: &AssetObject) -> (r: Result<DownloadJob, MonoryxError>)
    ensures
        !is_sha1_hex(object.hash@) ==> (r matches Err(MonoryxError::UnsafePath(h)) && h@ == object.hash@),
        is_sha1_hex(object.hash@) ==> (r matches Ok(j) && object_job(objects_dir@, name@, *object, j)),
{
    let h = to_chars(object.hash.as_str());
    let mut ok = h.len() == 40;
    let mut i: usize = 0;
    while ok && i < h.len()
        invariant
            i <= h.len(),
            h@ == object.hash@,
            ok ==> h.len() == 40,
            ok ==> forall|j: int| 0 <= j < i ==> is_hex_digit(#[trigger] h@[j]),
            !ok ==> !is_sha1_hex(object.hash@),
        decreases h.len() - i,
    {
        if !is_hex_digit_exec(h[i]) {
            ok = false;
        }
        i += 1;
    }
    if !ok {
        return Err(MonoryxError::UnsafePath(object.hash.clone()));
    }
    let prefix = slice_chars(&h, 0, 2);
    assert(prefix@ =~= object.hash@.take(2));
    let p = from_chars(&prefix);
    let dest = join(join(objects_dir, p.as_str()).as_str(), object.hash.as_str());
    let u1 = concat2(&lit("https://resources.download.minecraft.net/"), &prefix);
    let u2 = concat2(&u1, &lit("/"));
    let url = concat2(&u2, &h);
    let label = concat2(&lit("asset "), &to_chars(name));
    let job = DownloadJob::new(from_chars(&label), from_chars(&url), dest).with_size(object.size);
    Ok(job.with_sha1(object.hash.clone()))
}

/// The directory asset indexes are kept in.
pub fn indexes_dir(assets_dir: &str) -> (r: String)
    ensures
        r@ == join_path(assets_dir@, "indexes"@),
{
    join(assets_dir, "indexes")
}

/// The job that fetches the asset index `index_id` into
/// `indexes/<index_id>.json`, checked by hash and size; `UnsafePath` naming
/// the id when it is not a plain file name.
pub fn asset_index_job(assets_dir: &str, index_id: &str, index_url: String, index_sha1: String, index_size: u64) -> (r: Result<
    DownloadJob,
    MonoryxError,
>)
    ensures
        !plain_file_name(index_id@) ==> (r matches Err(MonoryxError::UnsafePath(n)) && n@ == index_id@),
        plain_file_name(index_id@) ==> (r matches Ok(j) && j.label@ == "assets index "@ + index_id@ && j.url
            == index_url && j.dest@ == join_path(join_path(assets_dir@, "indexes"@), index_id@ + ".json"@)
            && j.expected_sha1 == Some(index_sha1) && j.expected_sha512 is None && j.expected_size == Some(index_size)),
{
    if !is_plain_file_name(index_id) {
        return Err(MonoryxError::UnsafePath(from_chars(&to_chars(index_id))));
    }
    let file = concat2(&to_chars(index_id), &lit(".json"));
    let dest = join(indexes_dir(assets_dir).as_str(), from_chars(&file).as_str());
    let label = concat2(&lit("assets index "), &to_chars(index_id));
    Ok(DownloadJob::new(from_chars(&label), index_url, dest).with_sha1(index_sha1).with_size(index_size))
}

/// The first object, from `i` on, whose hash is not 40 hex digits.
pub open spec fn first_bad_hash(objects: Seq<(String, AssetObject)>, i: int) -> Option<int>
    decreases objects.len() - i,
{
    if i < 0 || i >= objects.len() {
        None
    } else if !is_sha1_hex(objects[i].1.hash@) {
        Some(i)
    } else {
        first_bad_hash(objects, i + 1)
    }
}

/// The positions, below `n`, of the objects not present yet, in order.
pub open spec fn missing_before(present: Seq<bool>, n: int) -> Seq<int>
    decreases n,
{
    if n <= 0 {
        Seq::empty()
    } else if present[n - 1] {
        missing_before(present, n - 1)
    } else {
        missing_before(present, n - 1).push(n - 1)
    }
}

proof fn lemma_missing_bounds(present: Seq<bool>, n: int)
    requires
        0 <= n <= present.len(),
    ensures
        missing_before(present, n).len() <= n,
        forall|k: int| 0 <= k < missing_before(present, n).len() ==> 0 <= #[trigger] missing_before(present, n)[k] < n,
    decreases n,
{
    if n > 0 {
        lemma_missing_bounds(present, n - 1);
    }
}

/// The asset objects to fetch: a job (see `object_job`) for each object of
/// the index, in order, whose file is not present yet (`present[i]`: the
/// file exists with the object's size and hash), with the number of objects
/// skipped; `UnsafePath` naming the first hash that is not 40 hex digits.
pub fn asset_downloads(objects_dir: &str, index: &AssetIndex, present: &Vec<bool>) -> (r: Result<
    (Vec<DownloadJob>, usize),
    MonoryxError,
>)
    requires
        present@.len() == index.objects@.len(),
    ensures
        first_bad_hash(index.objects@, 0) matches Some(i) ==> (r matches Err(MonoryxError::UnsafePath(h)) && h@
            == index.objects@[i].1.hash@),
        first_bad_hash(index.objects@, 0) is None ==> (r matches Ok((jobs, skipped)) && {
            let m = missing_before(present@, present@.len() as int);
            &&& jobs@.len() == m.len()
            &&& forall|k: int| 0 <= k < m.len() ==> object_job(objects_dir@, index.objects@[m[k]].0@, index.objects@[m[k]].1, #[trigger] jobs@[k])
            &&& skipped == index.objects@.len() - jobs@.len()
        }),
{
    let n = index.objects.len();
    let mut jobs: Vec<DownloadJob> = Vec::new();
    let mut i: usize = 0;
    while i < n
        invariant
            n == index.objects@.len(),
            present@.len() == n,
            i <= n,
            first_bad_hash(index.objects@, 0) == first_bad_hash(index.objects@, i as int),
            jobs@.len() == missing_before(present@, i as int).len(),
            forall|k: int| 0 <= k < jobs@.len() ==> object_job(objects_dir@, index.objects@[missing_before(present@, i as int)[k]].0@, index.objects@[missing_before(present@, i as int)[k]].1, #[trigger] jobs@[k]),
        decreases n - i,
    {
        let (name, object) = &index.objects[i];
        let job = asset_object_job(objects_dir, name.as_str(), object);
        match job {
            Err(e) => {
                return Err(e);
            },
            Ok(j) => {
                proof {
                    lemma_missing_bounds(present@, i as int);
                }
                if !present[i] {
                    jobs.push(j);
                }
            },
        }
        i += 1;
    }
    proof {
        lemma_missing_bounds(present@, n as int);
    }
    let skipped = n - jobs.len();
    Ok((jobs, skipped))
}

} // verus!
