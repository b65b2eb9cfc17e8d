//! Releases of a repository: what is asked of the remote service, and how its
//! two answers become one description of the release.

use vstd::prelude::*;
use vstd::string::*;

verus! {

/// One downloadable file of a release.
#[derive(PartialEq, Eq, Debug)]
pub struct AssetInfo {
    pub name: String,
    pub url: String,
    pub size: i64,
    pub download_count: i64,
}

/// What an `AssetInfo` says, as plain values.
pub struct AssetInfoView {
    pub name: Seq<char>,
    pub url: Seq<char>,
    pub size: i64,
    pub download_count: i64,
}

impl View for AssetInfo {
    type V = AssetInfoView;

    open spec fn view(&self) -> AssetInfoView {
        AssetInfoView {
            name: self.name@,
            url: self.url@,
            size: self.size,
            download_count: self.download_count,
        }
    }
}

impl Clone for AssetInfo {
    fn clone(&self) -> (copy: AssetInfo)
        ensures
            copy@ == self@,
    {
        AssetInfo {
            name: self.name.clone(),
            url: self.url.clone(),
            size: self.size,
            download_count: self.download_count,
        }
    }
}

/// The views of some assets, in order.
pub open spec fn asset_views(assets: Seq<AssetInfo>) -> Seq<AssetInfoView> {
    assets.map_values(|asset: AssetInfo| asset@)
}

/// The view of a text that may be missing.
pub open spec fn optional_text(text: Option<String>) -> Option<Seq<char>> {
    match text {
        Some(text) => Some(text@),
        None => None,
    }
}

/// The most recent release of a repository.
#[derive(PartialEq, Eq, Debug)]
pub struct Repoinfo {
    pub name: String,
    pub full_name: String,
    pub description: Option<String>,
    pub version: String,
    pub assets: Vec<AssetInfo>,
}

/// What a `Repoinfo` says, as plain values.
pub struct RepoinfoView {
    pub name: Seq<char>,
    pub full_name: Seq<char>,
    pub description: Option<Seq<char>>,
    pub version: Seq<char>,
    pub assets: Seq<AssetInfoView>,
}

impl View for Repoinfo {
    type V = RepoinfoView;

    open spec fn view(&self) -> RepoinfoView {
        RepoinfoView {
            name: self.name@,
            full_name: self.full_name@,
            description: optional_text(self.description),
            version: self.version@,
            assets: asset_views(self.assets@),
        }
    }
}

impl Clone for Repoinfo {
    fn clone(&self) -> (copy: Repoinfo)
        ensures
            copy@ == self@,
    {
        let mut assets: Vec<AssetInfo> = Vec::new();
        let mut at: usize = 0;
        while at < self.assets.len()
            invariant
                at <= self.assets.len(),
                assets.len() == at,
                forall|i: int| 0 <= i < at ==> (#[trigger] assets[i])@ == self.assets[i]@,
            decreases self.assets.len() - at,
        {
            assets.push(self.assets[at].clone());
            at += 1;
        }
        assert(asset_views(assets@) =~= asset_views(self.assets@));
        Repoinfo {
            name: self.name.clone(),
            full_name: self.full_name.clone(),
            description: match &self.description {
                Some(description) => Some(description.clone()),
                None => None,
            },
            version: self.version.clone(),
            assets,
        }
    }
}

/// What the service says of a repository itself.
#[derive(PartialEq, Eq, Debug)]
pub struct Repository {
    pub name: String,
    pub description: Option<String>,
}

/// What the service says of a repository's most recent release.
#[derive(PartialEq, Eq, Debug)]
pub struct Release {
    pub tag_name: String,
    pub assets: Vec<AssetInfo>,
}

/// A GET request that is still to be sent.
#[derive(PartialEq, Eq, Debug)]
pub struct Query {
    pub url: String,
    /// The token to authenticate with as bearer, if any.
    pub bearer: Option<String>,
    /// The other headers, as name and value, in the order in which they are set.
    pub headers: Vec<(String, String)>,
}

/// What a `Query` says, as plain values.
pub struct QueryView {
    pub url: Seq<char>,
    pub bearer: Option<Seq<char>>,
    pub headers: Seq<(Seq<char>, Seq<char>)>,
}

impl View for Query {
    type V = QueryView;

    open spec fn view(&self) -> QueryView {
        QueryView {
            url: self.url@,
            bearer: optional_text(self.bearer),
            headers: self.headers@.map_values(|header: (String, String)| (header.0@, header.1@)),
        }
    }
}

/// The header by which every request names this client.
pub open spec fn client_header() -> (Seq<char>, Seq<char>) {
    ("User-Agent"@, "grpm"@)
}

/// The headers that pin the format and the version of the service's answers.
pub open spec fn api_headers() -> Seq<(Seq<char>, Seq<char>)> {
    seq![("ACCEPT"@, "application/vnd.github+json"@), ("X-GitHub-Api-Version"@, "2022-11-28"@)]
}

/// The address of the service's description of a repository.
pub open spec fn repo_url(repo: Seq<char>) -> Seq<char> {
    "https://api.github.com/repos/"@ + repo
}

/// The address of the service's description of a repository's most recent
/// release.
pub open spec fn latest_release_url(repo: Seq<char>) -> Seq<char> {
    "https://api.github.com/repos/"@ + repo + "/releases/latest"@
}

/// A request to `url` that names this client and carries no credential.
pub fn build_query(url: &str) -> (query: Query)
    ensures
        query@ == (QueryView { url: url@, bearer: None, headers: seq![client_header()] }),
{
    let mut headers: Vec<(String, String)> = Vec::new();
    headers.push((String::from_str("User-Agent"), String::from_str("grpm")));
    let query = Query { url: String::from_str(url), bearer: None, headers };
    assert(query@.headers =~= seq![client_header()]);
    query
}

/// A request to `url` of the service: it names this client, authenticates with
/// `token` as bearer, and pins the format and the version of the answer.
pub fn build_api_query(url: &str, token: &str) -> (query: Query)
    ensures
        query@ == (QueryView {
            url: url@,
            bearer: Some(token@),
            headers: seq![client_header()] + api_headers(),
        }),
{
    let Query { url, bearer: _, headers } = build_query(url);
    let mut headers = headers;
    headers.push((String::from_str("ACCEPT"), String::from_str("application/vnd.github+json")));
    headers.push((String::from_str("X-GitHub-Api-Version"), String::from_str("2022-11-28")));
    let query = Query { url, bearer: Some(String::from_str(token)), headers };
    assert(query@.headers =~= seq![client_header()] + api_headers());
    query
}

/// The request for the description of the repository `repo`, an "owner/name".
pub fn get_repo(repo: &str, token: &str) -> (query: Query)
    ensures
        query@ == (QueryView {
            url: repo_url(repo@),
            bearer: Some(token@),
            headers: seq![client_header()] + api_headers(),
        }),
{
    let url = String::from_str("https://api.github.com/repos/").concat(repo);
    build_api_query(url.as_str(), token)
}

/// The request for the most recent release of the repository `repo`.
pub fn get_latest_release(repo: &str, token: &str) -> (query: Query)
    ensures
        query@ == (QueryView {
            url: latest_release_url(repo@),
            bearer: Some(token@),
            headers: seq![client_header()] + api_headers(),
        }),
{
    let url = String::from_str("https://api.github.com/repos/").concat(repo).concat(
        "/releases/latest",
    );
    build_api_query(url.as_str(), token)
}

/// The request for the bytes of an asset: to the asset's own address, without
/// credential.
pub fn download_asset(asset: &AssetInfo) -> (query: Query)
    ensures
        query@ == (QueryView { url: asset.url@, bearer: None, headers: seq![client_header()] }),
{
    build_query(asset.url.as_str())
}

/// Describes the most recent release of `repo` from the service's two
/// answers: name and description are the repository's, tag and assets the
/// release's.
pub fn get_repo_infos(repo: &str, repository: Repository, release: Release) -> (info: Repoinfo)
    ensures
        info@ == (RepoinfoView {
            name: repository.name@,
            full_name: repo@,
            description: optional_text(repository.description),
            version: release.tag_name@,
            assets: asset_views(release.assets@),
        }),
{
    Repoinfo {
        name: repository.name,
        full_name: String::from_str(repo),
        description: repository.description,
        version: release.tag_name,
        assets: release.assets,
    }
}

} // verus!
