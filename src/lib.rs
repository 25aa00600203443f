pub mod command;
pub mod command_list;
pub mod mesh;
pub mod unstable;
pub mod voxel;
