pub mod onvif;
pub mod profiles;
pub mod ptz;
pub mod soap;
pub mod wsse;
