use color_jwt::color::Color;
use color_jwt::gradient::Gradient;
use color_jwt::texture::TextureCache;

fn red() -> Color {
    Color::from_rgb(255, 0, 0)
}

fn green() -> Color {
    Color::from_rgb(0, 255, 0)
}

fn blue() -> Color {
    Color::from_rgb(0, 0, 255)
}

fn as_color32(c: Color) -> epaint::Color32 {
    epaint::Color32::from_rgba_premultiplied(c.r, c.g, c.b, c.a)
}

/// The image that was last uploaded for `id`.
fn uploaded(allocator: &mut epaint::TextureManager, id: epaint::TextureId) -> epaint::ColorImage {
    let delta = allocator.take_delta();
    let mut found = None;
    for (i, d) in delta.set {
        if i == id {
            if let epaint::ImageData::Color(img) = d.image {
                found = Some((*img).clone());
            }
        }
    }
    found.expect("no image uploaded for this texture")
}

#[test]
fn solid_red_is_allocated_once() {
    let mut allocator = epaint::TextureManager::default();
    let mut cache = TextureCache::new();
    assert_eq!(allocator.num_allocated(), 0);

    let swatch = Gradient::one_color(red());
    let first = cache.get(&mut allocator, &swatch);
    assert_eq!(allocator.num_allocated(), 1);
    assert_eq!(allocator.meta(first).map(|m| m.size), Some([1, 1]));
    let image = uploaded(&mut allocator, first);
    assert_eq!(image.size, [1, 1]);
    assert_eq!(image.pixels, vec![epaint::Color32::from_rgb(255, 0, 0)]);

    let again = cache.get(&mut allocator, &Gradient::one_color(red()));
    assert_eq!(allocator.num_allocated(), 1);
    assert_eq!(again, first);
    assert_eq!(cache.len(), 1);
}

#[test]
fn equal_gradients_allocate_at_most_once() {
    let mut allocator = epaint::TextureManager::default();
    let mut cache = TextureCache::default();
    let g1 = Gradient::construct(vec![red(), blue()]);
    let g2 = Gradient::construct(vec![red(), blue()]);
    let a = cache.get(&mut allocator, &g1);
    let b = cache.get(&mut allocator, &g2);
    assert_eq!(a, b);
    assert_eq!(allocator.num_allocated(), 1);
    assert_eq!(cache.lookup(&g2), Some(a));
}

#[test]
fn reversed_gradient_gets_its_own_texture() {
    let mut allocator = epaint::TextureManager::default();
    let mut cache = TextureCache::new();
    let forward = Gradient::construct(vec![red(), green(), blue()]);
    let backward = Gradient::construct(vec![blue(), green(), red()]);

    let f = cache.get(&mut allocator, &forward);
    let f_image = uploaded(&mut allocator, f);
    let b = cache.get(&mut allocator, &backward);
    let b_image = uploaded(&mut allocator, b);

    assert_ne!(f, b);
    assert_eq!(allocator.num_allocated(), 2);
    assert_eq!(cache.len(), 2);
    assert_eq!(f_image.size, [3, 1]);
    assert_eq!(f_image.pixels, vec![as_color32(red()), as_color32(green()), as_color32(blue())]);
    assert_eq!(b_image.pixels, vec![as_color32(blue()), as_color32(green()), as_color32(red())]);
}

#[test]
fn handles_follow_the_allocator_index() {
    let mut allocator = epaint::TextureManager::default();
    let mut cache = TextureCache::new();
    let a = cache.get(&mut allocator, &Gradient::one_color(red()));
    let b = cache.get(&mut allocator, &Gradient::one_color(green()));
    assert_eq!(a, epaint::TextureId::Managed(0));
    assert_eq!(b, epaint::TextureId::Managed(1));
}

#[test]
fn lookup_of_unknown_gradient_is_none() {
    let mut allocator = epaint::TextureManager::default();
    let mut cache = TextureCache::new();
    assert_eq!(cache.len(), 0);
    assert_eq!(cache.lookup(&Gradient::one_color(red())), None);
    cache.get(&mut allocator, &Gradient::one_color(blue()));
    assert_eq!(cache.lookup(&Gradient::one_color(red())), None);
}

#[test]
fn premultiplied_channels_are_uploaded_as_given() {
    let mut allocator = epaint::TextureManager::default();
    let mut cache = TextureCache::new();
    let c = Color::from_rgba_premultiplied(10, 20, 30, 40);
    let id = cache.get(&mut allocator, &Gradient::one_color(c));
    let image = uploaded(&mut allocator, id);
    assert_eq!(image.pixels, vec![epaint::Color32::from_rgba_premultiplied(10, 20, 30, 40)]);
}

#[test]
fn empty_gradient_uploads_a_zero_width_image() {
    let mut allocator = epaint::TextureManager::default();
    let mut cache = TextureCache::new();
    let id = cache.get(&mut allocator, &Gradient::construct(Vec::new()));
    assert_eq!(allocator.meta(id).map(|m| m.size), Some([0, 1]));
    assert_eq!(cache.len(), 1);
}
