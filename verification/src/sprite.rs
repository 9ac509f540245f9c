//! Sprites: rectangular regions of a shared texture, and sprite sheets that
//! cut a sprite into named or gridded sub-sprites.

use std::collections::HashMap;
use std::hash::Hash;
use std::rc::Rc;
use vstd::prelude::*;
use vstd::std_specs::hash::obeys_key_model;

verus! {

/// Makes another reference-counted pointer to the same texture.
///
/// Calls `Rc::clone`, which is documented to create another pointer to the
/// same allocation; the contract says that the pointee is the same.
#[verifier::external_body]
fn share<T>(rc: &Rc<T>) -> (r: Rc<T>)
    ensures
        r == *rc,
{
    rc.clone()
}

/// The region of a texture that a sprite covers, in pixels.
pub struct SpriteRegion {
    /// The size of the whole texture.
    pub original_size: (u32, u32),
    /// The size of the sprite.
    pub size: (u32, u32),
    /// The position of the sprite's top left corner in the texture.
    pub pos: (u32, u32),
}

/// The region of the sub-sprite at `offset` of size `size` in a sprite
/// covering `r`.
pub open spec fn sub_region(r: SpriteRegion, offset: (u32, u32), size: (u32, u32)) -> SpriteRegion {
    SpriteRegion {
        original_size: r.original_size,
        size: size,
        pos: ((r.pos.0 + offset.0) as u32, (r.pos.1 + offset.1) as u32),
    }
}

/// True when a sub-sprite at `offset` of size `size` fits in a sprite of
/// size `sprite_size`.
pub open spec fn fits(sprite_size: (u32, u32), offset: (u32, u32), size: (u32, u32)) -> bool {
    offset.0 + size.0 <= sprite_size.0 && offset.1 + size.1 <= sprite_size.1
}

/// The region of the whole texture that a sprite covering `r` was cut from.
pub open spec fn whole_region(r: SpriteRegion) -> SpriteRegion {
    SpriteRegion { original_size: r.original_size, size: r.original_size, pos: (0u32, 0u32) }
}

/// A ref-counted reference to a texture on the GPU.
///
/// This sprite can be cheaply cloned, resized, sliced, and drawn.
pub struct Sprite<T> {
    texture: Rc<T>,
    original_size: (u32, u32),
    size: (u32, u32),
    pos: (u32, u32),
}

impl<T> View for Sprite<T> {
    type V = SpriteRegion;

    closed spec fn view(&self) -> SpriteRegion {
        SpriteRegion { original_size: self.original_size, size: self.size, pos: self.pos }
    }
}

impl<T> Sprite<T> {
    /// A sprite lies within its texture.
    #[verifier::type_invariant]
    closed spec fn inside_texture(self) -> bool {
        &&& self.pos.0 + self.size.0 <= self.original_size.0
        &&& self.pos.1 + self.size.1 <= self.original_size.1
    }

    /// The texture that this sprite was loaded from.
    pub closed spec fn texture_spec(&self) -> Rc<T> {
        self.texture
    }

    /// A sprite covering the whole of a texture of the given size.
    pub fn new(texture: Rc<T>, size: (u32, u32)) -> (r: Sprite<T>)
        ensures
            r@ == (SpriteRegion { original_size: size, size: size, pos: (0u32, 0u32) }),
            r.texture_spec() == texture,
    {
        Sprite { texture, original_size: size, size, pos: (0, 0) }
    }

    /// The size of this sprite, in pixels.
    pub fn size(&self) -> (r: (u32, u32))
        ensures
            r == self@.size,
    {
        self.size
    }

    /// The position of this sprite in its texture, in pixels.
    pub fn pos(&self) -> (r: (u32, u32))
        ensures
            r == self@.pos,
    {
        self.pos
    }

    /// The size of the texture that this sprite was loaded from, in pixels;
    /// the sprite lies within it.
    pub fn original_size(&self) -> (r: (u32, u32))
        ensures
            r == self@.original_size,
            self@.pos.0 + self@.size.0 <= r.0,
            self@.pos.1 + self@.size.1 <= r.1,
    {
        proof {
            use_type_invariant(self);
        }
        self.original_size
    }

    /// Returns a new sprite located offset from this sprite with a specified size.
    ///
    /// Returns `None` when the new sprite would not fit in this one.  The
    /// horizontal extent is checked first, and each extent that is checked
    /// must be computable.
    pub fn sub_sprite(&self, offset: (u32, u32), size: (u32, u32)) -> (r: Option<Sprite<T>>)
        requires
            offset.0 + size.0 <= u32::MAX,
            offset.0 + size.0 <= self@.size.0 ==> offset.1 + size.1 <= u32::MAX,
        ensures
            r is Some <==> fits(self@.size, offset, size),
            r matches Some(s) ==> s@ == sub_region(self@, offset, size) && s.texture_spec()
                == self.texture_spec(),
    {
        proof {
            use_type_invariant(self);
        }
        if offset.0 + size.0 > self.size.0 {
            return None;
        };
        if offset.1 + size.1 > self.size.1 {
            return None;
        };

        let pos = (self.pos.0 + offset.0, self.pos.1 + offset.1);

        Some(Sprite { texture: share(&self.texture), original_size: self.original_size, size, pos })
    }

    /// Returns a sprite that contains the entire texture that the sprite
    /// was loaded from.
    pub fn original_sprite(&self) -> (r: Sprite<T>)
        ensures
            r@ == whole_region(self@),
            r.texture_spec() == self.texture_spec(),
    {
        Sprite {
            texture: share(&self.texture),
            original_size: self.original_size,
            size: self.original_size,
            pos: (0, 0),
        }
    }

    /// Returns a clone of the reference counted texture that this
    /// sprite was loaded from.
    pub fn texture(&self) -> (r: Rc<T>)
        ensures
            r == self.texture_spec(),
    {
        share(&self.texture)
    }

    /// Returns a reference to the texture that this sprite was loaded from.
    pub fn texture_ref(&self) -> (r: &T)
        ensures
            *r == *self.texture_spec(),
    {
        &*self.texture
    }

    /// Returns a new uniform sprite sheet using this sprite as its base,
    /// divided into a grid of `indiv_width` columns and `indiv_height` rows.
    pub fn as_uniform_sprite_sheet(&self, indiv_width: u32, indiv_height: u32) -> (r:
        UniformSpriteSheet<T>)
        requires
            indiv_width > 0,
            indiv_height > 0,
        ensures
            r.sheet_sprite()@ == self@,
            r.sheet_sprite().texture_spec() == self.texture_spec(),
            r.divs_spec() == (indiv_width, indiv_height),
            r.indiv_size_spec() == ((self@.size.0 / indiv_width) as u32, (self@.size.1
                / indiv_height) as u32),
    {
        UniformSpriteSheet::new(self.clone(), indiv_width, indiv_height)
    }

    /// Returns a new nonuniform sprite sheet using this sprite as its base.
    pub fn as_nonuniform_sprite_sheet<K: Eq + Hash>(&self) -> (r: NonUniformSpriteSheet<K, T>)
        ensures
            r.sprite@ == self@,
            r.sprite.texture_spec() == self.texture_spec(),
            r.mapping@ == Map::<K, Sprite<T>>::empty(),
    {
        NonUniformSpriteSheet::new(self.clone())
    }
}

impl<T> Clone for Sprite<T> {
    fn clone(&self) -> (r: Sprite<T>)
        ensures
            r@ == self@,
            r.texture_spec() == self.texture_spec(),
    {
        proof {
            use_type_invariant(self);
        }
        Sprite {
            texture: share(&self.texture),
            original_size: self.original_size,
            size: self.size,
            pos: self.pos,
        }
    }
}

/// A uniform sprite sheet is a sprite sheet that is broken up into
/// a grid of equally sized sub-sprites.
///
/// A `UniformSpriteSheet` can be obtained by calling `as_uniform_sprite_sheet` on
/// a `Sprite` object.
pub struct UniformSpriteSheet<T> {
    /// The sprite that this sprite sheet indexes into
    pub sprite: Sprite<T>,
    divs: (u32, u32),
    indiv_size: (u32, u32),
}

impl<T> UniformSpriteSheet<T> {
    /// The sprite that this sprite sheet indexes into.
    pub closed spec fn sheet_sprite(&self) -> Sprite<T> {
        self.sprite
    }

    /// The number of columns and rows of the grid.
    pub closed spec fn divs_spec(&self) -> (u32, u32) {
        self.divs
    }

    /// The size of one cell of the grid, in pixels.
    pub closed spec fn indiv_size_spec(&self) -> (u32, u32) {
        self.indiv_size
    }

    /// The offset of the cell at column `x` and row `y`, in pixels.
    pub open spec fn cell_offset(&self, x: u32, y: u32) -> (int, int) {
        (x * self.indiv_size_spec().0, y * self.indiv_size_spec().1)
    }

    /// True when the cell at column `x` and row `y` lies in the sprite.
    pub open spec fn has_cell(&self, x: u32, y: u32) -> bool {
        &&& self.cell_offset(x, y).0 + self.indiv_size_spec().0 <= self.sheet_sprite()@.size.0
        &&& self.cell_offset(x, y).1 + self.indiv_size_spec().1 <= self.sheet_sprite()@.size.1
    }

    /// True when what is computed to find the cell at column `x` and row
    /// `y` fits in a `u32`: both offsets and the right end, and the bottom end
    /// when the cell is not already too far right.
    pub open spec fn cell_in_range(&self, x: u32, y: u32) -> bool {
        &&& self.cell_offset(x, y).0 + self.indiv_size_spec().0 <= u32::MAX
        &&& self.cell_offset(x, y).1 <= u32::MAX
        &&& self.cell_offset(x, y).0 + self.indiv_size_spec().0 <= self.sheet_sprite()@.size.0
            ==> self.cell_offset(x, y).1 + self.indiv_size_spec().1 <= u32::MAX
    }

    /// Creates a new sprite-sheet that is divided into a `div_x` by `div_y`
    /// grid.
    fn new(sprite: Sprite<T>, div_x: u32, div_y: u32) -> (r: UniformSpriteSheet<T>)
        requires
            div_x > 0,
            div_y > 0,
        ensures
            r.sheet_sprite() == sprite,
            r.divs_spec() == (div_x, div_y),
            r.indiv_size_spec() == ((sprite@.size.0 / div_x) as u32, (sprite@.size.1 / div_y) as u32),
    {
        let indiv_width = sprite.size().0 / div_x;
        let indiv_height = sprite.size().1 / div_y;
        UniformSpriteSheet { sprite, divs: (div_x, div_y), indiv_size: (indiv_width, indiv_height) }
    }

    /// Returns the number of divisions made in the x and y direction.
    pub fn num_divs(&self) -> (r: (u32, u32))
        ensures
            r == self.divs_spec(),
    {
        self.divs
    }

    /// Gets the sprite that is in the (x, y) position in the grid
    /// defined by this sprite sheet.
    ///
    /// The cell must lie in the sprite.
    pub fn get(&self, x: u32, y: u32) -> (r: Sprite<T>)
        requires
            self.cell_in_range(x, y),
            self.has_cell(x, y),
        ensures
            r@ == sub_region(
                self.sheet_sprite()@,
                (self.cell_offset(x, y).0 as u32, self.cell_offset(x, y).1 as u32),
                self.indiv_size_spec(),
            ),
            r.texture_spec() == self.sheet_sprite().texture_spec(),
    {
        self.get_opt(x, y).unwrap()
    }

    /// Same as `get` but returns None instead of failing if
    /// the sprite is out of bounds.
    pub fn get_opt(&self, x: u32, y: u32) -> (r: Option<Sprite<T>>)
        requires
            self.cell_in_range(x, y),
        ensures
            r is Some <==> self.has_cell(x, y),
            r matches Some(s) ==> s@ == sub_region(
                self.sheet_sprite()@,
                (self.cell_offset(x, y).0 as u32, self.cell_offset(x, y).1 as u32),
                self.indiv_size_spec(),
            ) && s.texture_spec() == self.sheet_sprite().texture_spec(),
    {
        proof {
            assert(0 <= x * self.indiv_size.0) by (nonlinear_arith);
            assert(0 <= y * self.indiv_size.1) by (nonlinear_arith);
        }
        let x_tex = x * self.indiv_size.0;
        let y_tex = y * self.indiv_size.1;

        self.sprite.sub_sprite((x_tex, y_tex), self.indiv_size)
    }
}

/// A non-uniform sprite sheet is a sprite sheet that has parts of the
/// original sprite broken up into chunks that are associated to a key.
///
/// A `NonUniformSpriteSheet` can be obtained by calling
/// `as_nonuniform_sprite_sheet` on a `Sprite` object.
pub struct NonUniformSpriteSheet<K, T> {
    /// The sprite that this sprite sheet indexes into
    pub sprite: Sprite<T>,
    /// The mapping from a key to a subsprite
    pub mapping: HashMap<K, Sprite<T>>,
}

impl<K: Eq + Hash, T> NonUniformSpriteSheet<K, T> {
    /// Creates a new non-uniform spritesheet based off of this sprite.
    fn new(sprite: Sprite<T>) -> (r: NonUniformSpriteSheet<K, T>)
        ensures
            r.sprite == sprite,
            r.mapping@ == Map::<K, Sprite<T>>::empty(),
    {
        NonUniformSpriteSheet { sprite, mapping: HashMap::new() }
    }

    /// Associates a key with a sprite location.
    ///
    /// The location must lie in the sprite.  The keys must behave as the
    /// hash map expects: equal keys hash equally.
    pub fn associate(&mut self, key: K, pos: (u32, u32), size: (u32, u32))
        requires
            obeys_key_model::<K>(),
            fits(old(self).sprite@.size, pos, size),
        ensures
            final(self).sprite == old(self).sprite,
            final(self).mapping@.dom() == old(self).mapping@.dom().insert(key),
            final(self).mapping@[key]@ == sub_region(old(self).sprite@, pos, size),
            final(self).mapping@[key].texture_spec() == old(self).sprite.texture_spec(),
            forall|k: K| k != key && #[trigger] old(self).mapping@.contains_key(k) ==> final(self).mapping@[k]
                == old(self).mapping@[k],
    {
        broadcast use vstd::std_specs::hash::group_hash_axioms;

        let sub = self.sprite.sub_sprite(pos, size).unwrap();
        self.mapping.insert(key, sub);
    }

    /// Gets the sprite that is associated with a key.
    ///
    /// The key must be associated with a sprite.
    pub fn get(&self, key: &K) -> (r: Sprite<T>)
        requires
            obeys_key_model::<K>(),
            self.mapping@.contains_key(*key),
        ensures
            r@ == self.mapping@[*key]@,
            r.texture_spec() == self.mapping@[*key].texture_spec(),
    {
        self.get_opt(key).unwrap()
    }

    /// Same as `get` but returns None instead of failing if the key
    /// doesn't associate to anything.
    pub fn get_opt(&self, key: &K) -> (r: Option<Sprite<T>>)
        requires
            obeys_key_model::<K>(),
        ensures
            r is Some <==> self.mapping@.contains_key(*key),
            r matches Some(s) ==> s@ == self.mapping@[*key]@ && s.texture_spec()
                == self.mapping@[*key].texture_spec(),
    {
        broadcast use vstd::std_specs::hash::group_hash_axioms;

        match self.mapping.get(key) {
            Some(a) => Some(a.clone()),
            None => None,
        }
    }
}

/// A sub-sprite of a sub-sprite is the sub-sprite of the original sprite at
/// the sum of the offsets; the original sprite of any of them is the same.
pub proof fn lemma_sub_sprite_composes(
    r: SpriteRegion,
    o1: (u32, u32),
    s1: (u32, u32),
    o2: (u32, u32),
    s2: (u32, u32),
)
    requires
        r.pos.0 + r.size.0 <= r.original_size.0,
        r.pos.1 + r.size.1 <= r.original_size.1,
        fits(r.size, o1, s1),
        fits(s1, o2, s2),
    ensures
        fits(r.size, ((o1.0 + o2.0) as u32, (o1.1 + o2.1) as u32), s2),
        sub_region(sub_region(r, o1, s1), o2, s2) == sub_region(
            r,
            ((o1.0 + o2.0) as u32, (o1.1 + o2.1) as u32),
            s2,
        ),
        sub_region(r, o1, s1).original_size == r.original_size,
{
}

/// The sub-sprite at offset zero with the sprite's own size is the sprite.
pub proof fn lemma_sub_sprite_whole(r: SpriteRegion)
    ensures
        fits(r.size, (0u32, 0u32), r.size),
        sub_region(r, (0u32, 0u32), r.size) == r,
{
}

/// True when each sprite of `chain` is the sub-sprite that `sub_sprite`
/// returns for the one before it, at the offset and size of the matching
/// step.
pub open spec fn is_sub_sprite_chain<T>(chain: Seq<Sprite<T>>, steps: Seq<((u32, u32), (u32, u32))>) -> bool {
    &&& chain.len() == steps.len() + 1
    &&& forall|i: int|
        0 <= i < steps.len() ==> {
            &&& #[trigger] chain[i + 1]@ == sub_region(chain[i]@, steps[i].0, steps[i].1)
            &&& chain[i + 1].texture_spec() == chain[i].texture_spec()
        }
}

/// However long a chain of sub-sprites, each of its sprites keeps the
/// texture and the texture size of the first, so the original sprite of
/// any of them covers the same whole texture as the original sprite of the
/// first.
pub proof fn lemma_sub_sprite_chain_keeps_origin<T>(
    chain: Seq<Sprite<T>>,
    steps: Seq<((u32, u32), (u32, u32))>,
)
    requires
        is_sub_sprite_chain(chain, steps),
    ensures
        forall|i: int|
            0 <= i < chain.len() ==> {
                &&& #[trigger] chain[i]@.original_size == chain[0]@.original_size
                &&& chain[i].texture_spec() == chain[0].texture_spec()
                &&& whole_region(chain[i]@) == whole_region(chain[0]@)
            },
    decreases steps.len(),
{
    if steps.len() > 0 {
        let n = steps.len() - 1;
        lemma_sub_sprite_chain_keeps_origin(chain.take(n + 1), steps.take(n));
        assert forall|i: int| 0 <= i < chain.len() implies {
            &&& #[trigger] chain[i]@.original_size == chain[0]@.original_size
            &&& chain[i].texture_spec() == chain[0].texture_spec()
            &&& whole_region(chain[i]@) == whole_region(chain[0]@)
        } by {
            if i < n + 1 {
                assert(chain.take(n + 1)[i] == chain[i]);
            } else {
                assert(chain[n + 1]@ == sub_region(chain[n]@, steps[n].0, steps[n].1));
                assert(chain.take(n + 1)[n] == chain[n]);
            }
        }
    }
}

/// The cell at column `x` and row `y` of a sheet cut from sprite `s` into
/// `cols` columns and `rows` rows starts `x` cell widths right of the sprite
/// and `y` cell heights below it, and has the size of a cell: the sprite's
/// width divided by the columns and its height divided by the rows.
pub proof fn lemma_cell_position<T>(s: Sprite<T>, sheet: UniformSpriteSheet<T>, cols: u32, rows: u32, x: u32, y: u32)
    requires
        cols > 0,
        rows > 0,
        sheet.sheet_sprite()@ == s@,
        sheet.divs_spec() == (cols, rows),
        sheet.indiv_size_spec() == ((s@.size.0 / cols) as u32, (s@.size.1 / rows) as u32),
    ensures
        ({
            let w = s@.size.0 / cols;
            let h = s@.size.1 / rows;
            let cell = sub_region(
                sheet.sheet_sprite()@,
                (sheet.cell_offset(x, y).0 as u32, sheet.cell_offset(x, y).1 as u32),
                sheet.indiv_size_spec(),
            );
            &&& sheet.cell_offset(x, y) == (x * w, y * h)
            &&& sheet.cell_in_range(x, y) ==> cell.pos == ((s@.pos.0 + x * w) as u32, (s@.pos.1 + y * h) as u32)
            &&& cell.size == (w as u32, h as u32)
            &&& cell.original_size == s@.original_size
        }),
{
    let w = s@.size.0 / cols;
    let h = s@.size.1 / rows;
    assert(0 <= w <= s@.size.0) by (nonlinear_arith)
        requires
            cols > 0,
            w == s@.size.0 / cols,
    ;
    assert(0 <= h <= s@.size.1) by (nonlinear_arith)
        requires
            rows > 0,
            h == s@.size.1 / rows,
    ;
}

} // verus!
