//! Parsing and serialisation of the MP4 sample-entry boxes for AV1 (`av01`, `av1C`)
//! and HEVC (`hvc1`, `hvcC`), with their byte layouts stated as specifications.

pub mod mp4box;
