//! The camera and its builder.
//!
//! The builder is modelled by [`Settings`], one optional value per setting, and
//! the camera by [`CameraView`]. Every method of [`CameraBuilder`] is specified
//! as the model function of the same name, and the laws at the end of this file
//! are proved about the model.

use vstd::prelude::*;
use crate::units::{Pixels, Point, Resolution, Scalar, HALF, ONE, ZERO};

verus! {

/// Samples taken per pixel where the caller chose no number.
pub const DEFAULT_SAMPLE_SIZE: u16 = 50;

/// Width and height of the image where the caller chose no resolution.
pub const DEFAULT_RESOLUTION: Resolution = (1600, 900);

/// Where the camera stands by default: `(1.0, 0.5, 0.0)`.
pub open spec fn default_camera_position() -> Point {
    Point { x: Scalar { bits: ONE }, y: Scalar { bits: HALF }, z: Scalar { bits: ZERO } }
}

/// Which way is up by default: `(0.0, 1.0, 0.0)`.
pub open spec fn default_up_direction() -> Point {
    Point { x: Scalar { bits: ZERO }, y: Scalar { bits: ONE }, z: Scalar { bits: ZERO } }
}

/// Distance from the eye to the sensor plane by default: `0.5`.
pub open spec fn default_focal_length() -> Scalar {
    Scalar { bits: HALF }
}

/// Width of the sensor plane by default: `1.0`.
pub open spec fn default_sensor_width() -> Scalar {
    Scalar { bits: ONE }
}

/// A finished camera description. Nothing in this crate changes one after it
/// has been built.
///
/// The field of view and the aspect ratio of the image are not stored: both
/// follow from `sensor_width`, `focal_length` and `resolution`.
#[derive(Debug)]
pub struct Camera {
    /// Samples taken per pixel.
    pub sample_size: u16,
    /// The eye: where every ray starts.
    pub position: Point,
    /// The point the camera is aimed at.
    pub look_at: Point,
    /// The vertical axis of the camera.
    pub up_direction: Point,
    /// Width and height of the image, in pixels.
    pub resolution: Resolution,
    /// Distance from the eye to the sensor plane.
    pub focal_length: Scalar,
    /// Width of the sensor plane, in the unit of `focal_length`.
    pub sensor_width: Scalar,
    /// The colour accumulators, filled by whoever renders; empty when built.
    pub pixels: Pixels,
}

/// What a [`Camera`] holds, with its pixels as a sequence.
#[verifier::ext_equal]
pub ghost struct CameraView {
    pub sample_size: u16,
    pub position: Point,
    pub look_at: Point,
    pub up_direction: Point,
    pub resolution: Resolution,
    pub focal_length: Scalar,
    pub sensor_width: Scalar,
    pub pixels: Seq<Point>,
}

impl View for Camera {
    type V = CameraView;

    open spec fn view(&self) -> CameraView {
        CameraView {
            sample_size: self.sample_size,
            position: self.position,
            look_at: self.look_at,
            up_direction: self.up_direction,
            resolution: self.resolution,
            focal_length: self.focal_length,
            sensor_width: self.sensor_width,
            pixels: self.pixels@,
        }
    }
}

/// What a caller has chosen so far: for each setting either a value or nothing.
pub ghost struct Settings {
    pub sample_size: Option<u16>,
    pub position: Option<Point>,
    pub look_at: Option<Point>,
    pub up_direction: Option<Point>,
    pub resolution: Option<Resolution>,
    pub focal_length: Option<Scalar>,
    pub sensor_width: Option<Scalar>,
}

impl Settings {
    /// Nothing chosen.
    pub open spec fn unset() -> Settings {
        Settings {
            sample_size: None,
            position: None,
            look_at: None,
            up_direction: None,
            resolution: None,
            focal_length: None,
            sensor_width: None,
        }
    }

    /// Chooses the number of samples per pixel.
    pub open spec fn sample_size(self, sample_size: u16) -> Settings {
        Settings { sample_size: Some(sample_size), ..self }
    }

    /// Chooses where the camera stands.
    pub open spec fn position_by_coordinates(self, position: Point) -> Settings {
        Settings { position: Some(position), ..self }
    }

    /// Forgets the chosen target and keeps everything else; the angles play
    /// no part.
    pub open spec fn position_by_degrees(
        self,
        horizontal_degrees: Scalar,
        vertical_degrees: Scalar,
    ) -> Settings {
        Settings { look_at: None, ..self }
    }

    /// Chooses the point the camera is aimed at.
    pub open spec fn look_at(self, coordinate: Point) -> Settings {
        Settings { look_at: Some(coordinate), ..self }
    }

    /// Chooses which way is up.
    pub open spec fn up_direction_by_coordinates(self, up_direction: Point) -> Settings {
        Settings { up_direction: Some(up_direction), ..self }
    }

    /// Keeps every setting as it is; the angle plays no part.
    pub open spec fn up_direction_by_rotation(self, rotation: Scalar) -> Settings {
        self
    }

    /// Chooses the width and height of the image.
    pub open spec fn resolution(self, resolution: Resolution) -> Settings {
        Settings { resolution: Some(resolution), ..self }
    }

    /// Chooses the distance from the eye to the sensor plane.
    pub open spec fn focal_length(self, focal_length: Scalar) -> Settings {
        Settings { focal_length: Some(focal_length), ..self }
    }

    /// Chooses the width of the sensor plane.
    pub open spec fn sensor_width(self, sensor_width: Scalar) -> Settings {
        Settings { sensor_width: Some(sensor_width), ..self }
    }

    /// The camera these settings describe: each field is the chosen value, or
    /// its own default where nothing was chosen, and there are no pixels yet.
    pub open spec fn build(self) -> CameraView {
        CameraView {
            sample_size: match self.sample_size {
                Some(sample_size) => sample_size,
                None => DEFAULT_SAMPLE_SIZE,
            },
            position: match self.position {
                Some(position) => position,
                None => default_camera_position(),
            },
            look_at: match self.look_at {
                Some(coordinate) => coordinate,
                None => Point::origin(),
            },
            up_direction: match self.up_direction {
                Some(up_direction) => up_direction,
                None => default_up_direction(),
            },
            resolution: match self.resolution {
                Some(resolution) => resolution,
                None => DEFAULT_RESOLUTION,
            },
            focal_length: match self.focal_length {
                Some(focal_length) => focal_length,
                None => default_focal_length(),
            },
            sensor_width: match self.sensor_width {
                Some(sensor_width) => sensor_width,
                None => default_sensor_width(),
            },
            pixels: Seq::empty(),
        }
    }
}

/// Collects the settings of a camera, one call per setting, and builds the
/// camera from them. No value is checked: whatever is given is stored.
pub struct CameraBuilder {
    sample_size: Option<u16>,
    position: Option<Point>,
    look_at: Option<Point>,
    up_direction: Option<Point>,
    resolution: Option<Resolution>,
    focal_length: Option<Scalar>,
    sensor_width: Option<Scalar>,
}

impl View for CameraBuilder {
    type V = Settings;

    closed spec fn view(&self) -> Settings {
        Settings {
            sample_size: self.sample_size,
            position: self.position,
            look_at: self.look_at,
            up_direction: self.up_direction,
            resolution: self.resolution,
            focal_length: self.focal_length,
            sensor_width: self.sensor_width,
        }
    }
}

impl Default for CameraBuilder {
    /// A builder with nothing chosen.
    fn default() -> (builder: CameraBuilder)
        ensures
            builder@ == Settings::unset(),
    {
        CameraBuilder::new()
    }
}

impl CameraBuilder {
    /// A builder with nothing chosen.
    pub fn new() -> (builder: CameraBuilder)
        ensures
            builder@ == Settings::unset(),
    {
        CameraBuilder {
            sample_size: None,
            position: None,
            look_at: None,
            up_direction: None,
            resolution: None,
            focal_length: None,
            sensor_width: None,
        }
    }

    /// Sets the number of samples per pixel.
    pub fn sample_size(&mut self, sample_size: u16) -> (builder: &mut Self)
        ensures
            builder@ == old(self)@.sample_size(sample_size),
            *final(self) == *final(builder),
    {
        self.sample_size = Some(sample_size);
        self
    }

    /// Sets where the camera stands.
    pub fn position_by_coordinates(&mut self, position: Point) -> (builder: &mut Self)
        ensures
            builder@ == old(self)@.position_by_coordinates(position),
            *final(self) == *final(builder),
    {
        self.position = Some(position);
        self
    }

    /// Meant to place the camera by two angles around its target. No position
    /// is computed yet: the call drops the chosen target, so that the camera
    /// looks at the origin, and leaves every other setting alone.
    #[allow(unused_variables)]
    pub fn position_by_degrees(
        &mut self,
        horizontal_degrees: Scalar,
        vertical_degrees: Scalar,
    ) -> (builder: &mut Self)
        ensures
            builder@ == old(self)@.position_by_degrees(horizontal_degrees, vertical_degrees),
            *final(self) == *final(builder),
    {
        self.look_at = None;
        self
    }

    /// Sets the point the camera is aimed at.
    pub fn look_at(&mut self, coordinate: Point) -> (builder: &mut Self)
        ensures
            builder@ == old(self)@.look_at(coordinate),
            *final(self) == *final(builder),
    {
        self.look_at = Some(coordinate);
        self
    }

    /// Sets which way is up.
    pub fn up_direction_by_coordinates(&mut self, up_direction: Point) -> (builder: &mut Self)
        ensures
            builder@ == old(self)@.up_direction_by_coordinates(up_direction),
            *final(self) == *final(builder),
    {
        self.up_direction = Some(up_direction);
        self
    }

    /// Meant to turn the up direction by an angle. Nothing is computed yet: the
    /// builder stays exactly as it was.
    #[allow(unused_variables)]
    pub fn up_direction_by_rotation(&mut self, rotation: Scalar) -> (builder: &mut Self)
        ensures
            *builder == *old(self),
            builder@ == old(self)@.up_direction_by_rotation(rotation),
            *final(self) == *final(builder),
    {
        self
    }

    /// Sets the width and height of the image.
    pub fn resolution(&mut self, resolution: Resolution) -> (builder: &mut Self)
        ensures
            builder@ == old(self)@.resolution(resolution),
            *final(self) == *final(builder),
    {
        self.resolution = Some(resolution);
        self
    }

    /// Sets the distance from the eye to the sensor plane.
    pub fn focal_length(&mut self, focal_length: Scalar) -> (builder: &mut Self)
        ensures
            builder@ == old(self)@.focal_length(focal_length),
            *final(self) == *final(builder),
    {
        self.focal_length = Some(focal_length);
        self
    }

    /// Sets the width of the sensor plane.
    pub fn sensor_width(&mut self, sensor_width: Scalar) -> (builder: &mut Self)
        ensures
            builder@ == old(self)@.sensor_width(sensor_width),
            *final(self) == *final(builder),
    {
        self.sensor_width = Some(sensor_width);
        self
    }

    /// The camera that the settings describe. The builder is left as it is and
    /// can build again.
    pub fn build(&self) -> (camera: Camera)
        ensures
            camera@ == self@.build(),
    {
        Camera {
            sample_size: self.sample_size.unwrap_or(DEFAULT_SAMPLE_SIZE),
            position: self.position.unwrap_or(
                Point::new(Scalar::from_bits(ONE), Scalar::from_bits(HALF), Scalar::from_bits(ZERO)),
            ),
            look_at: self.look_at.unwrap_or(Point::default()),
            up_direction: self.up_direction.unwrap_or(
                Point::new(Scalar::from_bits(ZERO), Scalar::from_bits(ONE), Scalar::from_bits(ZERO)),
            ),
            resolution: self.resolution.unwrap_or(DEFAULT_RESOLUTION),
            focal_length: self.focal_length.unwrap_or(Scalar::from_bits(HALF)),
            sensor_width: self.sensor_width.unwrap_or(Scalar::from_bits(ONE)),
            pixels: Vec::new(),
        }
    }
}

/// Building twice from one builder gives the same camera twice: any two
/// cameras that `build` returns for `builder` agree in every field.
pub proof fn build_is_repeatable(builder: CameraBuilder, first: Camera, second: Camera)
    requires
        first@ == builder@.build(),
        second@ == builder@.build(),
    ensures
        first@ == second@,
{
}

/// After `position_by_degrees` the camera looks at the origin, whatever target
/// was chosen before and whatever the two angles are; nothing else about the
/// camera changes.
pub proof fn position_by_degrees_aims_at_origin(
    settings: Settings,
    horizontal_degrees: Scalar,
    vertical_degrees: Scalar,
)
    ensures
        settings.position_by_degrees(horizontal_degrees, vertical_degrees).build().look_at
            == Point::origin(),
        settings.position_by_degrees(horizontal_degrees, vertical_degrees).build() == (CameraView {
            look_at: Point::origin(),
            ..settings.build()
        }),
{
}

/// `up_direction_by_rotation` cannot be observed: the camera built after the
/// call is the camera that would have been built before it, up direction
/// included, whatever the angle is.
pub proof fn up_direction_by_rotation_changes_nothing(settings: Settings, rotation: Scalar)
    ensures
        settings.up_direction_by_rotation(rotation).build().up_direction
            == settings.build().up_direction,
        settings.up_direction_by_rotation(rotation).build() == settings.build(),
{
}

/// Each setting is resolved on its own: choosing a value changes that one field
/// of the camera to the value given and leaves the others, chosen or defaulted,
/// as they were.
pub proof fn each_setting_stands_alone(
    settings: Settings,
    count: u16,
    point: Point,
    resolution: Resolution,
    scalar: Scalar,
)
    ensures
        settings.sample_size(count).build() == (CameraView {
            sample_size: count,
            ..settings.build()
        }),
        settings.position_by_coordinates(point).build() == (CameraView {
            position: point,
            ..settings.build()
        }),
        settings.look_at(point).build() == (CameraView { look_at: point, ..settings.build() }),
        settings.up_direction_by_coordinates(point).build() == (CameraView {
            up_direction: point,
            ..settings.build()
        }),
        settings.resolution(resolution).build() == (CameraView {
            resolution,
            ..settings.build()
        }),
        settings.focal_length(scalar).build() == (CameraView {
            focal_length: scalar,
            ..settings.build()
        }),
        settings.sensor_width(scalar).build() == (CameraView {
            sensor_width: scalar,
            ..settings.build()
        }),
{
}

} // verus!
