use vstd::prelude::*;

pub mod media;
pub mod mp4_boxes;
pub mod names;
pub mod page;
pub mod breadcrumbs;
pub mod codec;
pub mod coming_soon;
pub mod crumb_markup;
pub mod gallery;
pub mod ids;
pub mod iframe;
pub mod inscription;
pub mod inscription_page;
pub mod inscriptions;
pub mod item;
pub mod sniff;
pub mod table_laws;
pub mod teleburn;
pub mod text;

verus! {

} // verus!
