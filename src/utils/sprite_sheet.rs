use crate::geometry::vector2d::Vector2d;
use vstd::prelude::*;

verus! {

/// One named region of the sprite sheet's image, in subpixels.
pub struct SubTexture {
    pub name: String,
    pub x: i64,
    pub y: i64,
    pub width: i64,
    pub height: i64,
}

/// The sprite sheet's descriptor: the image's path and its named regions.
pub struct TextureAtlas {
    pub image_path: String,
    pub sub_textures: Vec<SubTexture>,
}

impl TextureAtlas {
    /// Whether the first region called `name` is at `i`.
    pub open spec fn first_named(self, name: Seq<char>, i: int) -> bool {
        &&& 0 <= i < self.sub_textures@.len()
        &&& self.sub_textures@[i].name@ == name
        &&& forall|j: int| 0 <= j < i ==> (#[trigger] self.sub_textures@[j]).name@ != name
    }

    pub open spec fn has_name(self, name: Seq<char>) -> bool {
        exists|i: int| 0 <= i < self.sub_textures@.len() && (#[trigger] self.sub_textures@[i]).name@ == name
    }

    /// The index of the first region called `name`.
    pub fn find_sprite(&self, name: &String) -> (r: Option<usize>)
        ensures
            r.is_some() <==> self.has_name(name@),
            r.is_some() ==> self.first_named(name@, r.unwrap() as int),
    {
        let mut i: usize = 0;
        while i < self.sub_textures.len()
            invariant
                i <= self.sub_textures.len(),
                forall|j: int| 0 <= j < i ==> (#[trigger] self.sub_textures@[j]).name@ != name@,
            decreases self.sub_textures.len() - i,
        {
            if self.sub_textures[i].name == *name {
                return Some(i);
            }
            i += 1;
        }
        None
    }

    /// The size, in subpixels, of the first region called `name`.
    pub fn sprite_size(&self, name: &String) -> (r: Option<Vector2d>)
        ensures
            r.is_some() <==> self.has_name(name@),
            r.is_some() ==> exists|i: int|
                self.first_named(name@, i) && r.unwrap() == (Vector2d {
                    x: self.sub_textures@[i].width,
                    y: self.sub_textures@[i].height,
                }),
    {
        match self.find_sprite(name) {
            Some(i) => {
                let t = &self.sub_textures[i];
                Some(Vector2d { x: t.width, y: t.height })
            },
            None => None,
        }
    }
}

} // verus!
