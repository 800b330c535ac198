//! Decoders for the RenderWare binary asset containers: model clumps (DFF),
//! texture dictionaries (TXD) and animation packages (IFP).
//!
//! Every decoder is a pure function of an immutable byte buffer: the exec
//! code is verified against spec-level mirrors of the wire format, so a
//! successful decode is provably the unique result determined by the bytes.

pub mod byte_stream;
pub mod dff_model_type;
pub mod dff_parser;
pub mod error;
pub mod fixed_point;
pub mod ifp_parser;
pub mod image_format_enums;
pub mod rw_file;
pub mod rw_sections;
pub mod rw_version;
pub mod text;
pub mod txd_parser;
pub mod types;

pub use byte_stream::ByteStream;
pub use error::DecodeError;
pub use dff_model_type::DffModelType;
pub use dff_parser::{
    DffParser, RwAnimNode, RwAtomic, RwBinMesh, RwBone, RwClump, RwDff, RwFrame, RwFrameList,
    RwGeometry, RwGeometryList, RwMaterial, RwMaterialList, RwMesh, RwSkin, RwTexture,
};
pub use ifp_parser::{IfpParser, IfpVersion, RwIfp, RwIfpAnimation, RwIfpBone, RwIfpKeyframe};
pub use image_format_enums::{D3dFormat, PaletteType, PlatformType, RasterFormat};
pub use txd_parser::{RwTextureDictionary, RwTextureNative, RwTxd, TxdParser};
pub use types::{
    RwColor, RwMatrix3, RwMatrix4, RwQuaternion, RwSphere, RwTextureCoordinate, RwTriangle,
    RwVector2, RwVector3, RwVector4,
};
pub use rw_file::{RwFile, RwSectionHeader};
pub use rw_sections::RwSections;
pub use rw_version::{unpack_build, unpack_version, RwVersion};
