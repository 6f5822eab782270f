use vstd::prelude::*;

verus! {

/// The port the asset server listens on.
pub const PORT: u16 = 3030;

/// How the static asset server is set up: where it listens, what it serves
/// and how.
pub struct SiteConfig {
    pub host: String,
    pub port: u16,
    pub mount_path: String,
    pub root_dir: String,
    pub index_file: String,
    pub show_listing: bool,
    pub compress: bool,
}

impl SiteConfig {
    /// The server's fixed setup: loopback on `PORT`, the built front-end
    /// mounted at the root path with `index.html` as the index document,
    /// directory listings and response compression on.
    pub fn standard() -> (r: SiteConfig)
        ensures
            r.host@ == "127.0.0.1"@,
            r.port == PORT,
            r.mount_path@ == "/"@,
            r.root_dir@ == "../client/dist"@,
            r.index_file@ == "index.html"@,
            r.show_listing,
            r.compress,
    {
        SiteConfig {
            host: String::from_str("127.0.0.1"),
            port: PORT,
            mount_path: String::from_str("/"),
            root_dir: String::from_str("../client/dist"),
            index_file: String::from_str("index.html"),
            show_listing: true,
            compress: true,
        }
    }
}

} // verus!
