pub mod bundle;
pub mod capabilities;
pub mod cgroups;
pub mod env;
pub mod error;
pub mod image;
pub mod namespaces;
pub mod pipeline;
pub mod text;
pub mod unpack;
pub mod util;
pub mod volume;
