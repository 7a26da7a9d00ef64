//! The daemon's configuration record and the derivation of its storage
//! location: the data directory joined with the literal base name
//! `citadel` and the chosen serialization format's canonical extension.

use vstd::prelude::*;

verus! {

/// A named serialization format for the storage file.
#[derive(Clone, Copy, Debug, PartialEq, Eq, Structural)]
pub enum FileFormat {
    Yaml,
    Toml,
    Json,
}

/// The canonical file extension of each format, as bytes.
pub open spec fn spec_extension(f: FileFormat) -> Seq<u8> {
    match f {
        FileFormat::Yaml => seq![121u8, 97u8, 109u8, 108u8],
        FileFormat::Toml => seq![116u8, 111u8, 109u8, 108u8],
        FileFormat::Json => seq![106u8, 115u8, 111u8, 110u8],
    }
}

impl FileFormat {
    /// The canonical extension (`yaml`, `toml`, `json`), without a dot.
    pub fn extension(self) -> (r: Vec<u8>)
        ensures
            r@ == spec_extension(self),
    {
        let mut v: Vec<u8> = Vec::new();
        match self {
            FileFormat::Yaml => {
                v.push(121);
                v.push(97);
                v.push(109);
                v.push(108);
            },
            FileFormat::Toml => {
                v.push(116);
                v.push(111);
                v.push(109);
                v.push(108);
            },
            FileFormat::Json => {
                v.push(106);
                v.push(115);
                v.push(111);
                v.push(110);
            },
        }
        assert(v@ =~= spec_extension(self));
        v
    }
}

/// Where the storage process keeps its single file, and in which format.
pub struct FileConfig {
    pub location: Vec<u8>,
    pub format: FileFormat,
}

/// The literal base name of the storage file, `citadel`, as bytes.
pub open spec fn spec_base_name() -> Seq<u8> {
    seq![99u8, 105u8, 116u8, 97u8, 100u8, 101u8, 108u8]
}

/// The canonical single-file storage location: the base directory, a
/// path separator, the literal base name `citadel`, a dot, and the
/// format's canonical extension.
pub open spec fn spec_storage_location(dir: Seq<u8>, f: FileFormat) -> Seq<u8> {
    dir + seq![47u8] + spec_base_name() + seq![46u8] + spec_extension(f)
}

/// Derives the canonical storage location from a base directory and a
/// serialization format.
pub fn storage_location(data_dir: &Vec<u8>, format: FileFormat) -> (r: Vec<u8>)
    ensures
        r@ == spec_storage_location(data_dir@, format),
{
    let mut v: Vec<u8> = Vec::new();
    let mut i: usize = 0;
    while i < data_dir.len()
        invariant
            i <= data_dir@.len(),
            v@ == data_dir@.take(i as int),
        decreases data_dir@.len() - i,
    {
        v.push(data_dir[i]);
        assert(v@ =~= data_dir@.take(i + 1));
        i += 1;
    }
    assert(v@ =~= data_dir@);
    v.push(47);
    v.push(99);
    v.push(105);
    v.push(116);
    v.push(97);
    v.push(100);
    v.push(101);
    v.push(108);
    v.push(46);
    let ext = format.extension();
    let mut j: usize = 0;
    let ghost prefix = v@;
    while j < ext.len()
        invariant
            j <= ext@.len(),
            ext@ == spec_extension(format),
            v@ == prefix + ext@.take(j as int),
        decreases ext@.len() - j,
    {
        v.push(ext[j]);
        assert(v@ =~= prefix + ext@.take(j + 1));
        j += 1;
    }
    assert(v@ =~= spec_storage_location(data_dir@, format));
    v
}

/// Final configuration of the daemon, resulting from data in the
/// config file, environment and command-line options; pure data.
pub struct Config {
    /// Blockchain to use (mainnet, testnet, signet, liquid etc), by name.
    pub chain: Vec<u8>,
    /// Socket address, as text, of the RPC API endpoint.
    pub rpc_endpoint: Vec<u8>,
    /// Socket address, as text, of the asset RPC API endpoint.
    pub rgb20_endpoint: Vec<u8>,
    /// Data location.
    pub data_dir: Vec<u8>,
    /// Verbosity level.
    pub verbose: u8,
    /// Electrum server connection string.
    pub electrum_server: Vec<u8>,
}

impl Config {
    /// The storage configuration this daemon uses: its data directory's
    /// canonical single-file location, in the YAML format.
    pub fn storage_conf(&self) -> (r: FileConfig)
        ensures
            r.format == FileFormat::Yaml,
            r.location@ == spec_storage_location(self.data_dir@, FileFormat::Yaml),
    {
        let format = FileFormat::Yaml;
        let location = storage_location(&self.data_dir, format);
        FileConfig { location, format }
    }
}

} // verus!
