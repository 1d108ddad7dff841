//! Scan images captured from a device.
//!
//! An image owns the greyscale frame the native layer produced.  An image
//! with no pixels stands for the absent handle the native layer reports as
//! null.  Normalisation state is tracked so that repeated standardisation
//! is visibly a no-op; the pixel processing itself is the native layer's
//! work and its product enters here as a value.

use vstd::prelude::*;

use crate::errors::FPrintError;
use crate::errors::NullPtrContext;

verus! {

/// Mathematical image of a scan frame.
#[verifier::ext_equal]
pub struct ImageView {
    pub width: i32,
    pub height: i32,
    pub data: Seq<u8>,
    pub standardized: bool,
}

/// A raw or processed scan frame, exclusively owned by its holder.
#[derive(Debug)]
pub struct Image {
    width: i32,
    height: i32,
    data: Vec<u8>,
    standardized: bool,
}

impl View for Image {
    type V = ImageView;

    closed spec fn view(&self) -> ImageView {
        ImageView {
            width: self.width,
            height: self.height,
            data: self.data@,
            standardized: self.standardized,
        }
    }
}

/// The image after normalisation: the same frame, marked standard.
pub open spec fn standardized_spec(v: ImageView) -> ImageView {
    ImageView { standardized: true, ..v }
}

impl Image {
    /// An image holding no frame, standing for an absent native handle.
    pub fn new() -> (r: Image)
        ensures
            r@ == (ImageView {
                width: 0,
                height: 0,
                data: Seq::<u8>::empty(),
                standardized: false,
            }),
    {
        let r = Image { width: 0, height: 0, data: Vec::new(), standardized: false };
        proof {
            assert(r@ =~= ImageView {
                width: 0,
                height: 0,
                data: Seq::<u8>::empty(),
                standardized: false,
            });
        }
        r
    }

    /// Wraps a frame the native layer captured, not yet standardised.
    pub fn with_image(width: i32, height: i32, data: Vec<u8>) -> (r: Image)
        ensures
            r@ == (ImageView { width, height, data: data@, standardized: false }),
    {
        Image { width, height, data, standardized: false }
    }

    /// The pixel height of the frame.
    pub fn get_height(&self) -> (r: i32)
        ensures
            r == self@.height,
    {
        self.height
    }

    /// The pixel width of the frame.
    pub fn get_width(&self) -> (r: i32)
        ensures
            r == self@.width,
    {
        self.width
    }

    /// The greyscale pixel data of the frame, read-only.
    pub fn get_data(&self) -> (r: &Vec<u8>)
        ensures
            r@ == self@.data,
    {
        &self.data
    }

    /// Normalises the image in place.  Safe to call repeatedly: the work
    /// is tracked, so standardising a standard image changes nothing.
    pub fn standardize(&mut self)
        ensures
            final(self)@ == standardized_spec(old(self)@),
    {
        self.standardized = true;
        proof {
            assert(self@ =~= standardized_spec(old(self)@));
        }
    }

    /// Standardises this image, then takes over the independently owned
    /// binarized frame the native layer derived from it; a missing frame
    /// is the null-handle failure.  The derived frame must not be
    /// binarized again - that is the caller's responsibility, as with the
    /// native contract.
    pub fn binarize(&mut self, produced: Option<Image>) -> (r: Result<Image, FPrintError>)
        ensures
            final(self)@ == standardized_spec(old(self)@),
            produced is None ==> r == Err::<Image, FPrintError>(
                FPrintError::NullHandle(NullPtrContext::Binarize),
            ),
            produced matches Some(img) ==> (r matches Ok(b) && b == img),
    {
        self.standardize();
        match produced {
            None => Err(FPrintError::NullHandle(NullPtrContext::Binarize)),
            Some(img) => Ok(img),
        }
    }

    /// Classifies the outcome of exporting the frame to a portable
    /// graymap file.  `dir_exists` says whether the directory component
    /// of the target path already exists: it must - this wrapper never
    /// creates directories - while the file itself may be new.  A
    /// non-zero native code is a save failure carrying the code.
    pub fn save_to_file(&self, dir_exists: bool, code: i32) -> (r: Result<(), FPrintError>)
        ensures
            !dir_exists ==> r == Err::<(), FPrintError>(FPrintError::PathNotFound),
            dir_exists && code == 0 ==> r is Ok,
            dir_exists && code != 0 ==> r == Err::<(), FPrintError>(FPrintError::SaveFailed(code)),
    {
        if !dir_exists {
            Err(FPrintError::PathNotFound)
        } else if code == 0 {
            Ok(())
        } else {
            Err(FPrintError::SaveFailed(code))
        }
    }
}

/// Law: standardisation is idempotent - normalising an already
/// normalised image is the identity.
pub proof fn lemma_standardize_idempotent(v: ImageView)
    ensures
        standardized_spec(standardized_spec(v)) == standardized_spec(v),
{
}

} // verus!
