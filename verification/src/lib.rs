//! VitaForge, a homebrew store for the PlayStation Vita: its catalog rules,
//! text cleaning, image-cache and request-pacing policies, localisation, and
//! the input and navigation rules of its front end, with their contracts.

pub mod strings;
pub mod text;
pub mod data;
pub mod catalog;
pub mod twins;
pub mod controller;
pub mod icons;
pub mod gate;
pub mod i18n;
pub mod input;
pub mod navigation;
pub mod sidebar;
pub mod chrome_icons;
pub mod audio;
pub mod client_id;
pub mod sysinfo;
