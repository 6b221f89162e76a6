use vstd::prelude::*;

use crate::color::Color;

verus! {

/// epaint's texture allocator, held opaque.
#[verifier::external_type_specification]
#[verifier::external_body]
pub struct ExTextureAllocator(epaint::TextureManager);

/// epaint's texture handle: `Managed(index)` for textures that the
/// allocator hands out, `User(index)` for those of a backend.
#[verifier::external_type_specification]
pub struct ExTextureId(epaint::TextureId);

/// The index that the allocator gives to the next texture it allocates.
pub uninterp spec fn next_texture_index(m: epaint::TextureManager) -> u64;

/// Relies on epaint's `TextureManager::alloc`: it returns
/// `TextureId::Managed` of its running index and then advances that index
/// by one (which overflows, and panics, only at `u64::MAX`). The pixels
/// are uploaded as a `width x 1` image under default sampling options.
#[verifier::external_body]
pub(crate) fn allocate_row(allocator: &mut epaint::TextureManager, pixels: Vec<Color>) -> (id: epaint::TextureId)
    requires
        next_texture_index(*old(allocator)) < u64::MAX,
    ensures
        id == epaint::TextureId::Managed(next_texture_index(*old(allocator))),
        next_texture_index(*final(allocator)) == next_texture_index(*old(allocator)) + 1,
{
    let pixels: Vec<epaint::Color32> = pixels
        .into_iter()
        .map(|c| epaint::Color32::from_rgba_premultiplied(c.r, c.g, c.b, c.a))
        .collect();
    let image = epaint::ColorImage { size: [pixels.len(), 1], pixels };
    allocator.alloc("image".into(), epaint::ImageData::Color(image.into()), epaint::textures::TextureOptions::default())
}

} // verus!
