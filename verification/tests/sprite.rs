use std::rc::Rc;

use lux::sprite::Sprite;

fn sheet() -> Sprite<&'static str> {
    Sprite::new(Rc::new("texture"), (64, 32))
}

#[test]
fn new_sprite_covers_the_texture() {
    let s = sheet();
    assert_eq!(s.size(), (64, 32));
    assert_eq!(s.pos(), (0, 0));
    assert_eq!(s.original_size(), (64, 32));
    assert_eq!(*s.texture_ref(), "texture");
}

#[test]
fn sub_sprites_fit_or_fail() {
    let s = sheet();
    let a = s.sub_sprite((8, 4), (16, 16)).unwrap();
    assert_eq!(a.pos(), (8, 4));
    assert_eq!(a.size(), (16, 16));
    assert_eq!(a.original_size(), (64, 32));
    assert!(Rc::ptr_eq(&a.texture(), &s.texture()));

    assert!(s.sub_sprite((60, 0), (4, 32)).is_some());
    assert!(s.sub_sprite((61, 0), (4, 32)).is_none());
    assert!(s.sub_sprite((0, 17), (4, 16)).is_none());
}

#[test]
fn sub_sprites_compose() {
    let s = sheet();
    let a = s.sub_sprite((8, 4), (16, 16)).unwrap();
    let b = a.sub_sprite((2, 3), (5, 5)).unwrap();
    let c = s.sub_sprite((10, 7), (5, 5)).unwrap();
    assert_eq!((b.pos(), b.size()), (c.pos(), c.size()));
    assert!(a.sub_sprite((12, 0), (5, 5)).is_none());
}

#[test]
fn whole_sub_sprite_is_the_sprite() {
    let s = sheet();
    let a = s.sub_sprite((8, 4), (16, 16)).unwrap();
    let w = a.sub_sprite((0, 0), a.size()).unwrap();
    assert_eq!((w.pos(), w.size()), (a.pos(), a.size()));
}

#[test]
fn original_sprite_of_a_sub_sprite() {
    let s = sheet();
    let a = s.sub_sprite((8, 4), (16, 16)).unwrap();
    let o = a.original_sprite();
    assert_eq!(o.pos(), (0, 0));
    assert_eq!(o.size(), (64, 32));
    assert!(Rc::ptr_eq(&o.texture(), &s.texture()));
}

#[test]
fn uniform_sprite_sheet_cells() {
    let s = sheet();
    let grid = s.as_uniform_sprite_sheet(4, 2);
    assert_eq!(grid.num_divs(), (4, 2));
    let cell = grid.get(3, 1);
    assert_eq!(cell.pos(), (48, 16));
    assert_eq!(cell.size(), (16, 16));
    assert!(grid.get_opt(4, 0).is_none());
    assert!(grid.get_opt(0, 2).is_none());
    assert_eq!(grid.get_opt(0, 0).unwrap().pos(), (0, 0));
    assert_eq!(grid.sprite.size(), (64, 32));
}

#[test]
fn uniform_sprite_sheet_rounds_cells_down() {
    let s = Sprite::new(Rc::new(()), (10, 10));
    let grid = s.as_uniform_sprite_sheet(3, 3);
    assert_eq!(grid.get(2, 2).pos(), (6, 6));
    assert_eq!(grid.get(2, 2).size(), (3, 3));
    assert!(grid.get_opt(3, 0).is_none());
}

#[test]
fn nonuniform_sprite_sheet() {
    let s = sheet();
    let mut named = s.as_nonuniform_sprite_sheet::<u32>();
    assert!(named.get_opt(&1).is_none());
    named.associate(1, (0, 0), (10, 10));
    named.associate(2, (10, 0), (20, 5));
    assert_eq!(named.get(&2).pos(), (10, 0));
    assert_eq!(named.get(&2).size(), (20, 5));
    named.associate(1, (1, 1), (2, 2));
    assert_eq!(named.get_opt(&1).unwrap().pos(), (1, 1));
    assert_eq!(named.mapping.len(), 2);
}

#[test]
fn too_wide_sub_sprites_fail_before_their_height_is_looked_at() {
    let s = sheet();
    assert!(s.sub_sprite((65, u32::MAX), (0, 10)).is_none());
    let grid = s.as_uniform_sprite_sheet(4, 2);
    assert_eq!(grid.num_divs(), (4, 2));
    // Column 5 lies beyond the sheet, whatever the row.
    assert!(grid.get_opt(5, 200_000_000).is_none());
}

#[test]
fn a_chain_of_sub_sprites_keeps_the_original_sprite() {
    let s = sheet();
    let a = s.sub_sprite((8, 4), (40, 20)).unwrap();
    let b = a.sub_sprite((2, 2), (30, 10)).unwrap();
    let c = b.sub_sprite((5, 1), (3, 3)).unwrap();
    assert_eq!(c.pos(), (15, 7));
    for t in [&a, &b, &c] {
        let o = t.original_sprite();
        assert_eq!(o.size(), (64, 32));
        assert_eq!(o.original_size(), (64, 32));
        assert_eq!(o.pos(), (0, 0));
        assert!(Rc::ptr_eq(&o.texture(), &s.texture()));
        let oo = o.original_sprite();
        assert_eq!((oo.size(), oo.pos(), oo.original_size()), (o.size(), o.pos(), o.original_size()));
    }
}
