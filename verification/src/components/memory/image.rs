//! Bulk image loading: seeding a device's buffer with program code or data at
//! boot, and reading the whole buffer back out.

use vstd::prelude::*;

verus! {

/// Models an object which can have an image loaded into it, or taken of it, in
/// the form of an array of bytes. Loading copies the image to the start of the
/// device's buffer and leaves the bytes beyond the image's length untouched.
pub trait Imageable: Sized {
    /// How many bytes of image the device can hold.
    spec fn spec_capacity(&self) -> nat;

    /// The device's backing bytes.
    spec fn spec_mem(&self) -> Seq<u8>;

    /// The exact relation between the device before (`pre`) and after (`post`)
    /// an image of bytes `image` was loaded.
    spec fn spec_load_post(pre: Self, post: Self, image: Seq<u8>) -> bool;

    /// Loads the given image at the start of the device's buffer.
    fn load_image(&mut self, image: Vec<u8>)
        requires
            image@.len() <= old(self).spec_capacity(),
        ensures
            Self::spec_load_post(*old(self), *final(self), image@),
    ;

    /// Clears the currently loaded image by loading an empty one.
    fn clear_image(&mut self)
        ensures
            Self::spec_load_post(*old(self), *final(self), Seq::<u8>::empty()),
    ;

    /// Saves the state of the object to a new image.
    fn save_image(&self) -> (r: Vec<u8>)
        ensures
            r@ == self.spec_mem(),
    ;
}

} // verus!
