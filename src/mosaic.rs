//! The fixed layout of a composed mosaic: which backend bands carry the
//! colours, the files a composition writes, and the profile of its
//! compressed tiled raster.

use vstd::prelude::*;

verus! {

/// The backend bands read as red, green and blue, and over which statistics
/// are computed.
pub const COLOR_BANDS: (isize, isize, isize) = (1, 2, 3);

/// Name of the virtual mosaic written beside the composed raster.
pub const MOSAIC_VRT_FILE: &'static str = "dataset.vrt";

/// Name of the composed, compressed raster.
pub const MOSAIC_RASTER_FILE: &'static str = "dataset.tif";

/// Name of the virtual mosaic built from the elevation rasters.
pub const ELEVATION_VRT_FILE: &'static str = "elevation.vrt";

/// Backend driver that writes the composed raster.
pub const MOSAIC_DRIVER: &'static str = "COG";

/// One `KEY=VALUE` setting handed to the backend when it writes a raster.
#[derive(Debug, Clone, Copy)]
pub struct CreationOption {
    pub key: &'static str,
    pub value: &'static str,
}

/// Whether `o` is the setting `key=value`.
pub open spec fn is_setting(o: CreationOption, key: Seq<char>, value: Seq<char>) -> bool {
    o.key@ == key && o.value@ == value
}

/// The profile of the composed raster, in this order: ZSTD compression,
/// horizontal-differencing predictor, 64-bit file offsets, and every CPU.
pub fn creation_options() -> (r: Vec<CreationOption>)
    ensures
        r.len() == 4,
        is_setting(r[0], "COMPRESS"@, "ZSTD"@),
        is_setting(r[1], "PREDICTOR"@, "YES"@),
        is_setting(r[2], "BIGTIFF"@, "YES"@),
        is_setting(r[3], "NUM_THREADS"@, "ALL_CPUS"@),
{
    let mut r: Vec<CreationOption> = Vec::new();
    r.push(CreationOption { key: "COMPRESS", value: "ZSTD" });
    r.push(CreationOption { key: "PREDICTOR", value: "YES" });
    r.push(CreationOption { key: "BIGTIFF", value: "YES" });
    r.push(CreationOption { key: "NUM_THREADS", value: "ALL_CPUS" });
    r
}

} // verus!
