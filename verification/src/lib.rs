pub mod frame;
pub mod laws;
pub mod packet;
pub mod socket;
pub mod turbojpeg;
pub mod worker;
