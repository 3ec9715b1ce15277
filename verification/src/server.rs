//! How the server lays out its routes before it listens.
use vstd::prelude::*;
use crate::assets::{common_assets, favicon_ico, AssetsRoute};
use crate::config::Config;

verus! {

/// The routes the server mounts: the site icon at the top; under the
/// configured root path (or at the top when there is none) the
/// configuration for handlers, the application's routes, then the static
/// files.
pub struct SiteLayout {
    /// The directory of static files, created before the server starts.
    pub pub_dir: String,
    /// The path every route is mounted under, or `None` for the top.
    pub root_path: Option<String>,
    pub favicon_path: String,
    pub favicon_file: String,
    pub assets: AssetsRoute,
    /// The address to listen on.
    pub host: String,
}

/// The layout `serve` builds from a configuration.
pub fn site_layout(config: &Config) -> (r: SiteLayout)
    ensures
        r.pub_dir@ == config.pub_dir@,
        config.route_root@.len() == 0 ==> r.root_path is None,
        config.route_root@.len() > 0 ==> (r.root_path matches Some(p) && p@ == config.route_root@),
        r.favicon_path@ == "favicon.ico"@,
        r.favicon_file@ == "./favicon.ico"@,
        r.assets.path@ == "public/<**path>"@,
        r.assets.dir@ == config.pub_dir@,
        r.assets.default_file@ == "index.html"@,
        r.assets.listing == config.assets_listing,
        r.host@ == config.host@,
{
    let root_path = if config.route_root.as_str().is_empty() {
        None
    } else {
        Some(config.route_root.clone())
    };
    let (favicon_path, favicon_file) = favicon_ico();
    SiteLayout {
        pub_dir: config.pub_dir.clone(),
        root_path,
        favicon_path,
        favicon_file,
        assets: common_assets(config.pub_dir.clone(), config.assets_listing),
        host: config.host.clone(),
    }
}

} // verus!
