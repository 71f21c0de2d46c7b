//! The camera: what it decides while it follows a ray, and the image it
//! writes.

use vstd::prelude::*;
use crate::color::{decimal, write_decimal, Color, Pixel, LINE_FEED, SPACE};
use crate::hittables::{Hittables, Nearest};
use crate::ray::Ray;
use crate::scalar::Scalar;
use crate::sphere::Roots;
use crate::vector3::{Point3, Vector3};

verus! {

/// Bit pattern of `0.001`: hits closer to a ray's origin than this are
/// ignored, so that a scattered ray does not hit the surface it leaves.
pub const SHADOW_GUARD_BITS: u64 = 0x3f50_624d_d2f1_a9fc;

/// The ASCII code of the letter `P`, which opens the image's magic number.
pub const LETTER_P: u8 = 80;

/// The kind of image that is written: a pixmap in plain text.
pub const PLAIN_PIXMAP: u32 = 3;

/// The level of a channel at full intensity.
pub const MAX_LEVEL: u32 = 255;

/// What a material made of a ray: attenuation and outgoing ray, or nothing
/// where it absorbed the ray.
pub type Scatter = Option<(Color, Ray)>;

/// How the colour seen along a ray is obtained.
#[derive(Clone, Copy, Debug)]
pub enum Radiance {
    /// No light: the bounce budget is spent, or the ray was absorbed.
    Black,
    /// The ray left the scene: the sky's gradient for its direction.
    Background,
    /// The colour seen along `ray` with `depth` bounces left, channel by
    /// channel times `attenuation`.
    Attenuated { attenuation: Color, ray: Ray, depth: u32 },
}

/// The geometry and the sampling parameters of a render. Nothing changes
/// after construction.
#[derive(Clone, Copy, Debug)]
pub struct Camera {
    pub aspect_ratio: Scalar,
    pub image_width: u32,
    pub image_height: u32,
    pub viewport_width: Scalar,
    pub viewport_height: Scalar,
    pub vfov: Scalar,
    pub lookfrom: Point3,
    pub lookat: Point3,
    pub vup: Vector3,
    pub camera_u: Vector3,
    pub camera_v: Vector3,
    pub camera_w: Vector3,
    pub samples_per_pixel: u32,
    pub max_depth: u32,
    pub viewport_u: Vector3,
    pub viewport_v: Vector3,
    pub pixel_delta_u: Vector3,
    pub pixel_delta_v: Vector3,
    pub viewport_upper_left: Point3,
    pub pixel_upper_left: Point3,
    pub defocus_angle: Scalar,
    pub focus_distance: Scalar,
    pub defocus_disk_u: Vector3,
    pub defocus_disk_v: Vector3,
}

impl Camera {
    /// The number of pixel rows for a quotient of width and aspect ratio:
    /// the quotient, but at least one row.
    pub open spec fn spec_image_height(rows: u32) -> u32 {
        if rows == 0 {
            1
        } else {
            rows
        }
    }

    /// Whether rays start on the lens disk instead of at the eye.
    pub open spec fn spec_uses_lens(&self) -> bool {
        !self.defocus_angle.spec_le(Scalar::spec_zero())
    }

    /// The colour seen along a ray with `depth` bounces left, given what the
    /// scene made of the ray: `None` where it hit no surface, otherwise what
    /// the material of the nearest surface did.
    pub open spec fn spec_ray_color(depth: u32, hit: Option<Scatter>) -> Radiance {
        if depth == 0 {
            Radiance::Black
        } else {
            match hit {
                None => Radiance::Background,
                Some(None) => Radiance::Black,
                Some(Some((attenuation, ray))) => Radiance::Attenuated {
                    attenuation,
                    ray,
                    depth: (depth - 1) as u32,
                },
            }
        }
    }

    /// The head of a plain-text image in three lines: the magic number of a
    /// plain pixmap, the width and the height, and the largest level.
    pub open spec fn header(width: u32, height: u32) -> Seq<u8> {
        seq![LETTER_P] + decimal(PLAIN_PIXMAP as nat) + seq![LINE_FEED] + decimal(width as nat)
            + seq![SPACE] + decimal(height as nat) + seq![LINE_FEED] + decimal(MAX_LEVEL as nat)
            + seq![LINE_FEED]
    }

    /// The lines of the pixels, in their order.
    pub open spec fn lines(pixels: Seq<Pixel>) -> Seq<u8>
        decreases pixels.len(),
    {
        if pixels.len() == 0 {
            Seq::empty()
        } else {
            Camera::lines(pixels.drop_last()) + pixels.last().line()
        }
    }

    /// The number of pixel rows of an image, given the quotient of its width
    /// and its aspect ratio as a whole number.
    pub fn image_height(rows: u32) -> (height: u32)
        ensures
            height == Camera::spec_image_height(rows),
            height >= 1,
    {
        match rows {
            0 => 1,
            height => height,
        }
    }

    /// Whether depth of field is simulated: with a defocus angle of zero or
    /// less every ray starts at the eye.
    #[verifier::when_used_as_spec(spec_uses_lens)]
    pub fn uses_lens(&self) -> (lens: bool)
        ensures
            lens == self.spec_uses_lens(),
    {
        !self.defocus_angle.le(Scalar::zero())
    }

    /// Whether a ray with `depth` bounces left is black without a look at
    /// the scene.
    pub fn exhausted(depth: u32) -> (spent: bool)
        ensures
            spent == (depth == 0),
            spent ==> forall|hit: Option<Scatter>|
                Camera::spec_ray_color(depth, hit) == Radiance::Black,
    {
        depth == 0
    }

    /// The nearest surface that a ray sees: its nearest hit beyond the
    /// shadow guard, however far.
    pub fn trace(world: &Hittables, roots: &Vec<Roots>) -> (hit: Option<Nearest>)
        requires
            roots@.len() == world.hittables@.len(),
        ensures
            Hittables::model(hit) == Hittables::spec_hit(
                roots@,
                Scalar { bits: SHADOW_GUARD_BITS },
                Scalar::spec_infinity(),
            ),
            hit matches Some(nearest) ==> nearest.index < world.hittables@.len(),
            world.hittables@.len() == 0 ==> hit is None,
            Hittables::all_ordered(roots@) ==> match hit {
                Some(nearest) => Hittables::is_nearest(
                    roots@,
                    Scalar { bits: SHADOW_GUARD_BITS },
                    Scalar::spec_infinity(),
                    nearest.index as nat,
                    nearest.t,
                ),
                None => Hittables::all_missed(
                    roots@,
                    Scalar { bits: SHADOW_GUARD_BITS },
                    Scalar::spec_infinity(),
                ),
            },
    {
        world.hit(roots, Scalar::from_bits(SHADOW_GUARD_BITS), Scalar::infinity())
    }

    /// One step of following a ray.
    ///
    /// `hit` is `None` where the ray hit no surface, and otherwise what the
    /// material of the nearest surface returned. With no bounce left the
    /// answer is black whatever the scene did; a ray that escapes sees the
    /// background; an absorbed ray is black; a scattered ray hands its
    /// attenuation on to the ray that follows it, which has one bounce less.
    pub fn ray_color(depth: u32, hit: Option<Scatter>) -> (radiance: Radiance)
        ensures
            radiance == Camera::spec_ray_color(depth, hit),
            depth == 0 ==> radiance == Radiance::Black,
            radiance matches Radiance::Attenuated { depth: rest, .. } ==> rest < depth,
    {
        if depth == 0 {
            return Radiance::Black;
        }
        if let Some(scatter) = hit {
            if let Some((attenuation, scattered)) = scatter {
                return Radiance::Attenuated { attenuation, ray: scattered, depth: depth - 1 };
            }
            return Radiance::Black;
        }
        Radiance::Background
    }

    /// The image as a plain-text pixmap.
    ///
    /// `pixels` holds the image row by row from the top, each row from the
    /// left. The result is the header followed by one line per pixel.
    pub fn render(&self, pixels: &Vec<Pixel>) -> (image: Vec<u8>)
        requires
            pixels@.len() == self.image_width * self.image_height,
        ensures
            image@ == Camera::header(self.image_width, self.image_height) + Camera::lines(pixels@),
    {
        let mut image: Vec<u8> = Vec::new();
        image.push(LETTER_P);
        write_decimal(&mut image, PLAIN_PIXMAP);
        image.push(LINE_FEED);
        write_decimal(&mut image, self.image_width);
        image.push(SPACE);
        write_decimal(&mut image, self.image_height);
        image.push(LINE_FEED);
        write_decimal(&mut image, MAX_LEVEL);
        image.push(LINE_FEED);
        let ghost head = image@;
        assert(head == Camera::header(self.image_width, self.image_height));
        let mut i: usize = 0;
        while i < pixels.len()
            invariant
                i <= pixels@.len(),
                image@ == head + Camera::lines(pixels@.take(i as int)),
            decreases pixels@.len() - i,
        {
            proof {
                assert(pixels@.take(i + 1).drop_last() == pixels@.take(i as int));
            }
            pixels[i].dump(&mut image);
            i += 1;
        }
        proof {
            assert(pixels@.take(i as int) == pixels@);
        }
        image
    }
}

} // verus!
