//! Model of the remote game manifest: the versioned description of the
//! game served by the CDN (`GameInfo`) and the list of all game resource
//! files with their destinations, checksums and sizes (`Resources`).
//! The application fetches and parses these documents; the functions
//! here make the decisions the launcher takes over them: whether an
//! update is pending, which URL serves a resource, and how many bytes a
//! set of resources amounts to.

use vstd::prelude::*;

verus! {

/// `serde_json::Value` carried opaquely through manifest fields the
/// launcher never reads.
#[verifier::external_type_specification]
#[verifier::external_body]
pub struct ExValue(serde_json::Value);

/// One entry of the resource manifest: destination path relative to the
/// game directory, lowercase-hex MD5 checksum of the file's bytes, and
/// its size in bytes.
#[derive(Debug, PartialEq, Eq)]
pub struct Resource {
    pub dest: String,
    pub md5: String,
    pub size: u64,
}

impl Clone for Resource {
    fn clone(&self) -> (r: Self)
        ensures
            r == *self,
    {
        Resource { dest: self.dest.clone(), md5: self.md5.clone(), size: self.size }
    }
}

/// The full resource manifest for one game version.
#[derive(Debug, PartialEq, Eq)]
pub struct Resources {
    pub resource: Vec<Resource>,
}

#[derive(Debug, Clone)]
pub struct ResourcesLogin {
    pub host: String,
    pub login_switch: i64,
}

#[derive(Debug, Clone)]
pub struct CdnList {
    pub p: i64,
    pub k1: i64,
    pub k2: i64,
    pub url: String,
}

#[derive(Debug, Clone)]
pub struct Changelog {}

#[derive(Debug, Clone)]
pub struct ZipConfig {
    pub index_file_md5: String,
    pub un_compress_size: i64,
    pub ext: Ext,
    pub base_url: String,
    pub size: i64,
    pub index_file: String,
    pub version: String,
}

#[derive(Debug, Clone)]
pub struct Ext {
    pub max_file_size: i64,
}

#[derive(Debug, Clone)]
pub struct Ext2 {
    pub max_file_size: i64,
}

#[derive(Debug, Clone)]
pub struct PatchConfig {
    pub index_file_md5: String,
    pub un_compress_size: i64,
    pub ext: Ext2,
    pub base_url: String,
    pub size: i64,
    pub index_file: String,
    pub version: String,
}

#[derive(Debug, Clone)]
pub struct Config {
    pub index_file_md5: String,
    pub un_compress_size: i64,
    pub base_url: String,
    pub size: i64,
    pub patch_type: String,
    pub zip_config: ZipConfig,
    pub index_file: String,
    pub resources_exclude_path_need_update: Vec<String>,
    pub version: String,
    pub resources_exclude_path: Vec<String>,
    pub patch_config: Vec<PatchConfig>,
}

#[derive(Debug, Clone)]
pub struct CurrentGameInfo {
    pub file_name: String,
    pub md5: String,
    pub version: String,
}

#[derive(Debug, Clone)]
pub struct PreviousGameInfo {
    pub file_name: String,
    pub md5: String,
    pub version: String,
}

#[derive(Debug, Clone)]
pub struct ResourcesDiff {
    pub current_game_info: CurrentGameInfo,
    pub previous_game_info: PreviousGameInfo,
}

#[derive(Debug, Clone)]
pub struct Download {
    pub download_cdn_select_test_duration: String,
    pub download_read_block_timeout: String,
}

#[derive(Debug, Clone)]
pub struct ResCheck {
    pub file_chunk_check_switch: String,
    pub file_size_check_switch: String,
    pub res_valid_check_time_out: String,
    pub file_check_white_list_config: String,
}

#[derive(Debug, Clone)]
pub struct Experiment {
    pub download: Download,
    pub res_check: ResCheck,
}

#[derive(Debug, Clone)]
pub struct SampleHashInfo {
    pub sample_num: i64,
    pub sample_block_max_size: i64,
}

/// The section of the manifest root that the launcher actually reads:
/// the game version, the CDN base URLs and the path of the resource
/// list.
#[derive(Debug, Clone)]
pub struct DefaultInfo {
    pub cdn_list: Vec<CdnList>,
    pub changelog: Changelog,
    pub changelog_visible: i64,
    pub config: Config,
    pub resources: String,
    pub resources_base_path: String,
    pub resources_diff: ResourcesDiff,
    pub resources_exclude_path: Vec<String>,
    pub resources_exclude_path_need_update: Vec<String>,
    pub version: String,
}

/// The manifest root as the CDN serves it.
#[derive(Debug, Clone)]
pub struct GameInfo {
    pub chunk_download_switch: i64,
    pub key_file_check_switch: i64,
    pub resources_login: ResourcesLogin,
    pub check_exe_is_running: i64,
    pub hash_cache_check_acc_switch: i64,
    pub fingerprints: Vec<String>,
    pub default: DefaultInfo,
    pub rhioption_switch: i64,
    pub predownload_switch: i64,
    pub rhioption_list: Vec<serde_json::Value>,
    pub experiment: Experiment,
    pub key_file_check_list: Vec<String>,
}

impl GameInfo {
    /// An update is pending exactly when the freshly fetched manifest
    /// carries a version different from this (cached) one.
    pub fn need_update(&self, live: &GameInfo) -> (r: bool)
        ensures
            r == (self.default.version@ != live.default.version@),
    {
        !(self.default.version == live.default.version)
    }

    /// First CDN base URL of the manifest, the one every download uses.
    pub fn get_first_cdn(&self) -> (r: String)
        requires
            self.default.cdn_list@.len() > 0,
        ensures
            r@ == self.default.cdn_list@[0].url@,
    {
        self.default.cdn_list[0].url.clone()
    }

    /// Base path under the CDN where resource files live, with the
    /// trailing separator appended.
    pub fn get_resource_base_path(&self) -> (r: String)
        ensures
            r@ == self.default.resources_base_path@ + "/"@,
    {
        self.default.resources_base_path.clone().concat("/")
    }

    /// URL of the resource-list document: the first CDN base URL
    /// followed by the manifest's resource path.
    pub fn resources_url(&self) -> (r: String)
        requires
            self.default.cdn_list@.len() > 0,
        ensures
            r@ == self.default.cdn_list@[0].url@ + self.default.resources@,
    {
        self.get_first_cdn().concat(self.default.resources.as_str())
    }
}

/// Total size in bytes of a list of resources.
pub open spec fn spec_total_size(rs: Seq<Resource>) -> int
    decreases rs.len(),
{
    if rs.len() == 0 {
        0
    } else {
        spec_total_size(rs.drop_last()) + rs.last().size
    }
}

/// The total size of a prefix never exceeds the total size of the whole
/// list: sizes are nonnegative.
pub proof fn lemma_total_size_take_le(rs: Seq<Resource>, i: int)
    requires
        0 <= i <= rs.len(),
    ensures
        spec_total_size(rs.take(i)) <= spec_total_size(rs),
    decreases rs.len() - i,
{
    if i < rs.len() {
        assert(rs.take(i + 1).drop_last() =~= rs.take(i));
        assert(rs.take(i + 1).last() == rs[i]);
        lemma_total_size_take_le(rs, i + 1);
    } else {
        assert(rs.take(i) =~= rs);
    }
}

impl Resources {
    /// Number of bytes that downloading every listed resource amounts
    /// to. The manifest of one game version stays far below the
    /// machine's integer range; the caller guarantees the sum fits.
    pub fn get_max_size_resources(&self) -> (total: u64)
        requires
            spec_total_size(self.resource@) <= u64::MAX,
        ensures
            total == spec_total_size(self.resource@),
    {
        let mut max_size: u64 = 0;
        let mut i: usize = 0;
        while i < self.resource.len()
            invariant
                0 <= i <= self.resource@.len(),
                spec_total_size(self.resource@) <= u64::MAX,
                max_size == spec_total_size(self.resource@.take(i as int)),
            decreases self.resource@.len() - i,
        {
            proof {
                assert(self.resource@.take(i + 1).drop_last() =~= self.resource@.take(i as int));
                assert(self.resource@.take(i + 1).last() == self.resource@[i as int]);
                lemma_total_size_take_le(self.resource@, i + 1);
            }
            max_size = max_size + self.resource[i].size;
            i = i + 1;
        }
        proof {
            assert(self.resource@.take(self.resource@.len() as int) =~= self.resource@);
        }
        max_size
    }
}

impl Resource {
    /// URL a resource is downloaded from: CDN base, resource base path,
    /// then the resource's destination path.
    pub fn build_download_url(&self, base_url: &str, zip_uri: &str) -> (r: String)
        ensures
            r@ == base_url@ + zip_uri@ + self.dest@,
    {
        base_url.to_owned().concat(zip_uri).concat(self.dest.as_str())
    }
}

} // verus!
