//! Images of locations: where a cached image is found, and when one has to be
//! generated. Caches and generators are collaborators behind two traits.
use crate::model::{Location, Pos};
use crate::text::{decimal, decimal_string, join2, owned};
use vstd::prelude::*;

verus! {

/// Why an image could not be had.
#[derive(Debug, Clone, Copy, PartialEq, Eq, Structural)]
pub enum ImageError {
    /// The generator produced no image.
    Generation,
    /// The cache could not keep the image.
    Storage,
}

/// A store of images, one per coordinate.
pub trait ImageCache {
    /// The path under which the image for `pos` is kept, if one is.
    fn get_cached_path(&self, pos: &Pos) -> (r: Option<String>);

    /// Keeps an image for `pos` and says where.
    fn save_image(&mut self, pos: &Pos, data: &[u8]) -> (r: Result<String, ImageError>);
}

/// A maker of images from prompts.
pub trait ImageGenerator {
    fn generate_image(&self, prompt: &str) -> (r: Result<Vec<u8>, ImageError>);
}

/// Finds the image of a location, generating it where the cache has none.
pub struct ImageManager<C: ImageCache, G: ImageGenerator> {
    pub cache: C,
    pub generator: G,
}

impl<C: ImageCache, G: ImageGenerator> ImageManager<C, G> {
    pub fn new(cache: C, generator: G) -> (r: Self)
        ensures
            r.cache == cache,
            r.generator == generator,
    {
        ImageManager { cache, generator }
    }

    /// Whether `cached` is what the cache may answer when asked for the image
    /// kept for `pos`.
    pub open spec fn looked_up(cache: C, pos: Pos, cached: Option<String>) -> bool {
        call_ensures(C::get_cached_path, (&cache, &pos), cached)
    }

    /// Whether `made` is what the generator may make of the prompt `prompt`.
    pub open spec fn generated(
        generator: G,
        prompt: Seq<char>,
        made: Result<Vec<u8>, ImageError>,
    ) -> bool {
        exists|text: &str|
            text@ == prompt && #[trigger] call_ensures(G::generate_image, (&generator, text), made)
    }

    /// The path of the image for the location at `pos`.
    ///
    /// The cache is asked first. The path that it answers is the result, and
    /// nothing changes. Where it answers none, the generator is given the
    /// location's image prompt: its failure is the result, and nothing
    /// changes; the image it makes is given to the cache to keep for `pos`,
    /// and what the cache answers to that is the result. The generator stays
    /// as it is in every case.
    pub fn get_image_for_location(&mut self, pos: &Pos, location: &Location) -> (r: Result<
        String,
        ImageError,
    >)
        ensures
            final(self).generator == old(self).generator,
            exists|cached: Option<String>| #[trigger]
                Self::looked_up(old(self).cache, *pos, cached) && match cached {
                    Some(path) => r == Ok::<String, ImageError>(path) && final(self).cache
                        == old(self).cache,
                    None => exists|made: Result<Vec<u8>, ImageError>| #[trigger]
                        Self::generated(old(self).generator, location.image_prompt@, made)
                            && match made {
                            Err(e) => r == Err::<String, ImageError>(e) && final(self).cache
                                == old(self).cache,
                            Ok(data) => exists|cache: &mut C, bytes: &[u8]|
                                *cache == old(self).cache && *final(cache) == final(self).cache
                                    && bytes@ == data@ && #[trigger] call_ensures(
                                    C::save_image,
                                    (cache, pos, bytes),
                                    r,
                                ),
                        },
                },
    {
        let cached = self.cache.get_cached_path(pos);
        proof {
            assert(Self::looked_up(self.cache, *pos, cached));
        }
        if let Some(path) = cached {
            return Ok(path);
        }
        let prompt = location.image_prompt.as_str();
        let made = self.generator.generate_image(prompt);
        proof {
            assert(call_ensures(G::generate_image, (&self.generator, prompt), made));
            assert(Self::generated(self.generator, location.image_prompt@, made));
        }
        match made {
            Ok(data) => {
                let bytes = data.as_slice();
                let kept = self.cache.save_image(pos, bytes);
                proof {
                    assert(exists|cache: &mut C, bytes: &[u8]|
                        *cache == old(self).cache && *final(cache) == self.cache && bytes@
                            == data@ && #[trigger] call_ensures(
                            C::save_image,
                            (cache, pos, bytes),
                            kept,
                        ));
                }
                kept
            },
            Err(e) => Err(e),
        }
    }
}

/// A generator for trials: every image is ten zero bytes.
#[derive(Debug, Clone, Copy)]
pub struct MockImageGenerator;

impl ImageGenerator for MockImageGenerator {
    fn generate_image(&self, prompt: &str) -> (r: Result<Vec<u8>, ImageError>)
        ensures
            r matches Ok(data) && data@ == Seq::new(10, |i: int| 0u8),
    {
        let mut data: Vec<u8> = Vec::new();
        while data.len() < 10
            invariant
                data.len() <= 10,
                forall|i: int| 0 <= i < data.len() ==> data@[i] == 0u8,
            decreases 10 - data.len(),
        {
            data.push(0);
        }
        proof {
            assert(data@ =~= Seq::new(10, |i: int| 0u8));
        }
        Ok(data)
    }
}

/// A cache that keeps nothing: every image is generated anew, and lives
/// where the front end puts it.
#[derive(Debug, Clone, Copy)]
pub struct InMemoryCache {}

impl InMemoryCache {
    pub fn new() -> InMemoryCache {
        InMemoryCache {  }
    }
}

impl ImageCache for InMemoryCache {
    fn get_cached_path(&self, pos: &Pos) -> (r: Option<String>)
        ensures
            r is None,
    {
        None
    }

    fn save_image(&mut self, pos: &Pos, data: &[u8]) -> (r: Result<String, ImageError>)
        ensures
            r matches Ok(p) && p@ == "blob:dummy"@,
    {
        Ok(owned("blob:dummy"))
    }
}

/// A cache in a directory of the file system: one file per coordinate.
#[derive(Debug, Clone)]
pub struct FileSystemCache {
    pub base_dir: String,
}

impl FileSystemCache {
    /// The name of the file that holds the image for `pos`.
    pub open spec fn file_name(pos: Pos) -> Seq<char> {
        decimal(pos.0 as int) + "_"@ + decimal(pos.1 as int) + ".png"@
    }

    /// A cache in the directory `base_dir`.
    pub fn new(base_dir: String) -> (r: FileSystemCache)
        ensures
            r.base_dir == base_dir,
    {
        FileSystemCache { base_dir }
    }

    /// The name of the file that holds the image for `pos`.
    pub fn image_file_name(&self, pos: &Pos) -> (r: String)
        ensures
            r@ == Self::file_name(*pos),
    {
        let x = decimal_string(pos.0 as i128);
        let y = decimal_string(pos.1 as i128);
        let mut out = join2(x.as_str(), "_");
        out.append(y.as_str());
        out.append(".png");
        out
    }
}

} // verus!
