//! The annotation documents, one shape of document for each kind of media.

use crate::error::SchemaError;
use crate::finite::Finite;
use crate::geometry::{geometry_members, geometry_of_json, Geometry, GeometryView, Shape};
use crate::json::{
    decoded, members_view, optional_as, required_as, Json, JsonNumber, JsonView,
};
use crate::objects::{Object, ObjectView};
use crate::tags::{Tag, TagView};
use crate::wire::{
    decode_list_or_empty, decode_member, decode_opt_member, list_or_empty, reader, Decode,
};
use vstd::prelude::*;
use vstd::std_specs::convert::FromSpecImpl;

verus! {

/// A width and a height, in pixels.
#[derive(Debug, Clone, Copy, PartialEq, Eq, Structural)]
pub struct Size {
    pub width: u64,
    pub height: u64,
}

impl Default for Size {
    fn default() -> (r: Size)
        ensures
            r == (Size { width: 0, height: 0 }),
    {
        Size { width: 0, height: 0 }
    }
}

impl DeepView for Size {
    type V = Size;

    open spec fn deep_view(&self) -> Size {
        *self
    }
}

impl Decode for Size {
    open spec fn read(j: JsonView) -> Result<Size, SchemaError> {
        let width = j.req_u64("width"@);
        let height = j.req_u64("height"@);
        if width is Err {
            Err(width->Err_0)
        } else if height is Err {
            Err(height->Err_0)
        } else {
            Ok(Size { width: width->Ok_0, height: height->Ok_0 })
        }
    }

    /// Reads a size from an object with `width` and `height`.
    fn decode(j: &Json) -> (r: Result<Size, SchemaError>) {
        let width = j.req_u64("width")?;
        let height = j.req_u64("height")?;
        Ok(Size { width, height })
    }
}

/// A vector of space.
#[derive(Debug, Clone, PartialEq, Eq)]
pub struct Vector3D {
    pub x: Finite,
    pub y: Finite,
    pub z: Finite,
}

/// The model of a [`Vector3D`].
pub struct Vector3DView {
    pub x: JsonNumber,
    pub y: JsonNumber,
    pub z: JsonNumber,
}

impl DeepView for Vector3D {
    type V = Vector3DView;

    open spec fn deep_view(&self) -> Vector3DView {
        Vector3DView { x: self.x.deep_view(), y: self.y.deep_view(), z: self.z.deep_view() }
    }
}

impl Decode for Vector3D {
    open spec fn read(j: JsonView) -> Result<Vector3DView, SchemaError> {
        let x = required_as(j.required("x"@), reader::<Finite>());
        let y = required_as(j.required("y"@), reader::<Finite>());
        let z = required_as(j.required("z"@), reader::<Finite>());
        if x is Err {
            Err(x->Err_0)
        } else if y is Err {
            Err(y->Err_0)
        } else if z is Err {
            Err(z->Err_0)
        } else {
            Ok(Vector3DView { x: x->Ok_0, y: y->Ok_0, z: z->Ok_0 })
        }
    }

    /// Reads a vector from an object with `x`, `y` and `z`.
    fn decode(j: &Json) -> (r: Result<Vector3D, SchemaError>) {
        let x = decode_member::<Finite>(j, "x")?;
        let y = decode_member::<Finite>(j, "y")?;
        let z = decode_member::<Finite>(j, "z")?;
        Ok(Vector3D { x, y, z })
    }
}

/// Where a box of a point cloud is, how it is turned and how large it is.
#[derive(Debug, Clone, PartialEq, Eq)]
pub struct PointCloudGeometry {
    pub position: Vector3D,
    pub rotation: Vector3D,
    pub dimensions: Vector3D,
}

/// The model of a [`PointCloudGeometry`].
pub struct PointCloudGeometryView {
    pub position: Vector3DView,
    pub rotation: Vector3DView,
    pub dimensions: Vector3DView,
}

impl DeepView for PointCloudGeometry {
    type V = PointCloudGeometryView;

    open spec fn deep_view(&self) -> PointCloudGeometryView {
        PointCloudGeometryView {
            position: self.position.deep_view(),
            rotation: self.rotation.deep_view(),
            dimensions: self.dimensions.deep_view(),
        }
    }
}

impl Decode for PointCloudGeometry {
    open spec fn read(j: JsonView) -> Result<PointCloudGeometryView, SchemaError> {
        let position = required_as(j.required("position"@), reader::<Vector3D>());
        let rotation = required_as(j.required("rotation"@), reader::<Vector3D>());
        let dimensions = required_as(j.required("dimensions"@), reader::<Vector3D>());
        if position is Err {
            Err(position->Err_0)
        } else if rotation is Err {
            Err(rotation->Err_0)
        } else if dimensions is Err {
            Err(dimensions->Err_0)
        } else {
            Ok(
                PointCloudGeometryView {
                    position: position->Ok_0,
                    rotation: rotation->Ok_0,
                    dimensions: dimensions->Ok_0,
                },
            )
        }
    }

    /// Reads a box from an object with `position`, `rotation` and
    /// `dimensions`.
    fn decode(j: &Json) -> (r: Result<PointCloudGeometry, SchemaError>) {
        let position = decode_member::<Vector3D>(j, "position")?;
        let rotation = decode_member::<Vector3D>(j, "rotation")?;
        let dimensions = decode_member::<Vector3D>(j, "dimensions")?;
        Ok(PointCloudGeometry { position, rotation, dimensions })
    }
}

/// An object of a point cloud: an identity without a shape.
#[derive(Debug, Clone, PartialEq, Eq)]
pub struct PointCloudObject {
    pub key: String,
    pub class_title: String,
    pub tags: Vec<Tag>,
}

/// The model of a [`PointCloudObject`].
pub struct PointCloudObjectView {
    pub key: Seq<char>,
    pub class_title: Seq<char>,
    pub tags: Seq<TagView>,
}

impl DeepView for PointCloudObject {
    type V = PointCloudObjectView;

    open spec fn deep_view(&self) -> PointCloudObjectView {
        PointCloudObjectView {
            key: self.key@,
            class_title: self.class_title@,
            tags: self.tags.deep_view(),
        }
    }
}

impl Decode for PointCloudObject {
    open spec fn read(j: JsonView) -> Result<PointCloudObjectView, SchemaError> {
        let key = j.req_text("key"@);
        let class_title = j.req_text("classTitle"@);
        let tags = list_or_empty(optional_as(j.optional("tags"@), reader::<Vec<Tag>>()));
        if key is Err {
            Err(key->Err_0)
        } else if class_title is Err {
            Err(class_title->Err_0)
        } else if tags is Err {
            Err(tags->Err_0)
        } else {
            Ok(
                PointCloudObjectView {
                    key: key->Ok_0,
                    class_title: class_title->Ok_0,
                    tags: tags->Ok_0,
                },
            )
        }
    }

    /// Reads an object from `key`, `classTitle` and, where there are any,
    /// `tags`.
    fn decode(j: &Json) -> (r: Result<PointCloudObject, SchemaError>) {
        let key = j.req_text("key")?;
        let class_title = j.req_text("classTitle")?;
        let tags = decode_list_or_empty::<Tag>(j, "tags")?;
        Ok(PointCloudObject { key, class_title, tags })
    }
}

/// A box of a point cloud, with the key of the object it belongs to.
#[derive(Debug, Clone, PartialEq, Eq)]
pub struct PointCloudFigure {
    pub key: String,
    pub object_key: String,
    pub geometry_type: Shape,
    pub geometry: PointCloudGeometry,
}

/// The model of a [`PointCloudFigure`].
pub struct PointCloudFigureView {
    pub key: Seq<char>,
    pub object_key: Seq<char>,
    pub geometry_type: Shape,
    pub geometry: PointCloudGeometryView,
}

impl DeepView for PointCloudFigure {
    type V = PointCloudFigureView;

    open spec fn deep_view(&self) -> PointCloudFigureView {
        PointCloudFigureView {
            key: self.key@,
            object_key: self.object_key@,
            geometry_type: self.geometry_type,
            geometry: self.geometry.deep_view(),
        }
    }
}

impl Decode for PointCloudFigure {
    open spec fn read(j: JsonView) -> Result<PointCloudFigureView, SchemaError> {
        let key = j.req_text("key"@);
        let object_key = j.req_text("objectKey"@);
        let geometry_type = required_as(j.required("geometryType"@), reader::<Shape>());
        let geometry = required_as(j.required("geometry"@), reader::<PointCloudGeometry>());
        if key is Err {
            Err(key->Err_0)
        } else if object_key is Err {
            Err(object_key->Err_0)
        } else if geometry_type is Err {
            Err(geometry_type->Err_0)
        } else if geometry is Err {
            Err(geometry->Err_0)
        } else {
            Ok(
                PointCloudFigureView {
                    key: key->Ok_0,
                    object_key: object_key->Ok_0,
                    geometry_type: geometry_type->Ok_0,
                    geometry: geometry->Ok_0,
                },
            )
        }
    }

    /// Reads a figure from `key`, `objectKey`, `geometryType` and
    /// `geometry`. The object key is kept as it is read.
    fn decode(j: &Json) -> (r: Result<PointCloudFigure, SchemaError>) {
        let key = j.req_text("key")?;
        let object_key = j.req_text("objectKey")?;
        let geometry_type = decode_member::<Shape>(j, "geometryType")?;
        let geometry = decode_member::<PointCloudGeometry>(j, "geometry")?;
        Ok(PointCloudFigure { key, object_key, geometry_type, geometry })
    }
}

/// An object of a video: an identity without a shape.
#[derive(Debug, Clone, PartialEq, Eq)]
pub struct VideoObject {
    pub key: String,
    pub class_title: Option<String>,
    pub tags: Option<Vec<Tag>>,
    pub labeler_login: Option<String>,
}

/// The model of a [`VideoObject`].
pub struct VideoObjectView {
    pub key: Seq<char>,
    pub class_title: Option<Seq<char>>,
    pub tags: Option<Seq<TagView>>,
    pub labeler_login: Option<Seq<char>>,
}

impl DeepView for VideoObject {
    type V = VideoObjectView;

    open spec fn deep_view(&self) -> VideoObjectView {
        VideoObjectView {
            key: self.key@,
            class_title: self.class_title.deep_view(),
            tags: self.tags.deep_view(),
            labeler_login: self.labeler_login.deep_view(),
        }
    }
}

impl Decode for VideoObject {
    open spec fn read(j: JsonView) -> Result<VideoObjectView, SchemaError> {
        let key = j.req_text("key"@);
        let class_title = j.opt_text("classTitle"@);
        let tags = optional_as(j.optional("tags"@), reader::<Vec<Tag>>());
        let labeler_login = j.opt_text("labelerLogin"@);
        if key is Err {
            Err(key->Err_0)
        } else if class_title is Err {
            Err(class_title->Err_0)
        } else if tags is Err {
            Err(tags->Err_0)
        } else if labeler_login is Err {
            Err(labeler_login->Err_0)
        } else {
            Ok(
                VideoObjectView {
                    key: key->Ok_0,
                    class_title: class_title->Ok_0,
                    tags: tags->Ok_0,
                    labeler_login: labeler_login->Ok_0,
                },
            )
        }
    }

    /// Reads an object from `key` and, where they are there, `classTitle`,
    /// `tags` and `labelerLogin`.
    fn decode(j: &Json) -> (r: Result<VideoObject, SchemaError>) {
        let key = j.req_text("key")?;
        let class_title = j.opt_text("classTitle")?;
        let tags = decode_opt_member::<Vec<Tag>>(j, "tags")?;
        let labeler_login = j.opt_text("labelerLogin")?;
        Ok(VideoObject { key, class_title, tags, labeler_login })
    }
}

/// A shape on a frame, with the key of the object it belongs to.
#[derive(Debug, Clone, PartialEq, Eq)]
pub struct Figure {
    pub key: String,
    pub object_key: String,
    pub geometry: Geometry,
    pub class_title: Option<String>,
    pub labeler_login: Option<String>,
}

/// The model of a [`Figure`].
pub struct FigureView {
    pub key: Seq<char>,
    pub object_key: Seq<char>,
    pub geometry: GeometryView,
    pub class_title: Option<Seq<char>>,
    pub labeler_login: Option<Seq<char>>,
}

impl DeepView for Figure {
    type V = FigureView;

    open spec fn deep_view(&self) -> FigureView {
        FigureView {
            key: self.key@,
            object_key: self.object_key@,
            geometry: self.geometry.deep_view(),
            class_title: self.class_title.deep_view(),
            labeler_login: self.labeler_login.deep_view(),
        }
    }
}

/// Writes the shape of a figure: the members that go beside the figure's
/// own, the discriminator first.
pub fn serialize(geometry: &Geometry) -> (r: Vec<(String, Json)>)
    ensures
        members_view(r@) == geometry_members(geometry.deep_view()),
{
    geometry.members()
}

/// Reads the shape of a figure from the JSON object that holds both.
pub fn deserialize(j: &Json) -> (r: Result<Geometry, SchemaError>)
    ensures
        decoded(r) == geometry_of_json(j.deep_view()),
{
    Geometry::decode(j)
}

impl Decode for Figure {
    open spec fn read(j: JsonView) -> Result<FigureView, SchemaError> {
        let key = j.req_text("key"@);
        let object_key = j.req_text("objectKey"@);
        let geometry = geometry_of_json(j);
        let class_title = j.opt_text("classTitle"@);
        let labeler_login = j.opt_text("labelerLogin"@);
        if key is Err {
            Err(key->Err_0)
        } else if object_key is Err {
            Err(object_key->Err_0)
        } else if geometry is Err {
            Err(geometry->Err_0)
        } else if class_title is Err {
            Err(class_title->Err_0)
        } else if labeler_login is Err {
            Err(labeler_login->Err_0)
        } else {
            Ok(
                FigureView {
                    key: key->Ok_0,
                    object_key: object_key->Ok_0,
                    geometry: geometry->Ok_0,
                    class_title: class_title->Ok_0,
                    labeler_login: labeler_login->Ok_0,
                },
            )
        }
    }

    /// Reads a figure and, from the same JSON object, its shape. The object
    /// key is kept as it is read.
    fn decode(j: &Json) -> (r: Result<Figure, SchemaError>) {
        let key = j.req_text("key")?;
        let object_key = j.req_text("objectKey")?;
        let geometry = deserialize(j)?;
        let class_title = j.opt_text("classTitle")?;
        let labeler_login = j.opt_text("labelerLogin")?;
        Ok(Figure { key, object_key, geometry, class_title, labeler_login })
    }
}

/// The figures of one frame.
#[derive(Debug, Clone, PartialEq, Eq)]
pub struct Frame {
    pub index: u64,
    pub figures: Vec<Figure>,
}

/// The model of a [`Frame`].
pub struct FrameView {
    pub index: u64,
    pub figures: Seq<FigureView>,
}

impl DeepView for Frame {
    type V = FrameView;

    open spec fn deep_view(&self) -> FrameView {
        FrameView { index: self.index, figures: self.figures.deep_view() }
    }
}

impl Decode for Frame {
    open spec fn read(j: JsonView) -> Result<FrameView, SchemaError> {
        let index = j.req_u64("index"@);
        let figures = required_as(j.required("figures"@), reader::<Vec<Figure>>());
        if index is Err {
            Err(index->Err_0)
        } else if figures is Err {
            Err(figures->Err_0)
        } else {
            Ok(FrameView { index: index->Ok_0, figures: figures->Ok_0 })
        }
    }

    /// Reads a frame from `index` and `figures`.
    fn decode(j: &Json) -> (r: Result<Frame, SchemaError>) {
        let index = j.req_u64("index")?;
        let figures = decode_member::<Vec<Figure>>(j, "figures")?;
        Ok(Frame { index, figures })
    }
}

/// The annotation of an image.
#[derive(Debug, Clone, PartialEq, Eq)]
pub struct ImageAnnotation {
    pub name: Option<String>,
    pub description: Option<String>,
    pub size: Size,
    pub tags: Option<Vec<Tag>>,
    pub objects: Vec<Object>,
}

/// The model of an [`ImageAnnotation`].
pub struct ImageAnnotationView {
    pub name: Option<Seq<char>>,
    pub description: Option<Seq<char>>,
    pub size: Size,
    pub tags: Option<Seq<TagView>>,
    pub objects: Seq<ObjectView>,
}

impl DeepView for ImageAnnotation {
    type V = ImageAnnotationView;

    open spec fn deep_view(&self) -> ImageAnnotationView {
        ImageAnnotationView {
            name: self.name.deep_view(),
            description: self.description.deep_view(),
            size: self.size,
            tags: self.tags.deep_view(),
            objects: self.objects.deep_view(),
        }
    }
}

impl Decode for ImageAnnotation {
    open spec fn read(j: JsonView) -> Result<ImageAnnotationView, SchemaError> {
        let name = j.opt_text("name"@);
        let description = j.opt_text("description"@);
        let size = required_as(j.required("size"@), reader::<Size>());
        let tags = optional_as(j.optional("tags"@), reader::<Vec<Tag>>());
        let objects = required_as(j.required("objects"@), reader::<Vec<Object>>());
        if name is Err {
            Err(name->Err_0)
        } else if description is Err {
            Err(description->Err_0)
        } else if size is Err {
            Err(size->Err_0)
        } else if tags is Err {
            Err(tags->Err_0)
        } else if objects is Err {
            Err(objects->Err_0)
        } else {
            Ok(
                ImageAnnotationView {
                    name: name->Ok_0,
                    description: description->Ok_0,
                    size: size->Ok_0,
                    tags: tags->Ok_0,
                    objects: objects->Ok_0,
                },
            )
        }
    }

    /// Reads the annotation of an image.
    fn decode(j: &Json) -> (r: Result<ImageAnnotation, SchemaError>) {
        let name = j.opt_text("name")?;
        let description = j.opt_text("description")?;
        let size = decode_member::<Size>(j, "size")?;
        let tags = decode_opt_member::<Vec<Tag>>(j, "tags")?;
        let objects = decode_member::<Vec<Object>>(j, "objects")?;
        Ok(ImageAnnotation { name, description, size, tags, objects })
    }
}

/// The annotation of a video.
#[derive(Debug, Clone, PartialEq, Eq)]
pub struct VideoAnnotation {
    pub size: Size,
    pub description: String,
    pub tags: Vec<Tag>,
    pub key: String,
    pub objects: Vec<VideoObject>,
    pub frames: Vec<Frame>,
    pub frames_count: u64,
}

/// The model of a [`VideoAnnotation`].
pub struct VideoAnnotationView {
    pub size: Size,
    pub description: Seq<char>,
    pub tags: Seq<TagView>,
    pub key: Seq<char>,
    pub objects: Seq<VideoObjectView>,
    pub frames: Seq<FrameView>,
    pub frames_count: u64,
}

impl DeepView for VideoAnnotation {
    type V = VideoAnnotationView;

    open spec fn deep_view(&self) -> VideoAnnotationView {
        VideoAnnotationView {
            size: self.size,
            description: self.description@,
            tags: self.tags.deep_view(),
            key: self.key@,
            objects: self.objects.deep_view(),
            frames: self.frames.deep_view(),
            frames_count: self.frames_count,
        }
    }
}

impl Decode for VideoAnnotation {
    open spec fn read(j: JsonView) -> Result<VideoAnnotationView, SchemaError> {
        let size = required_as(j.required("size"@), reader::<Size>());
        let description = j.req_text("description"@);
        let tags = list_or_empty(optional_as(j.optional("tags"@), reader::<Vec<Tag>>()));
        let key = j.req_text("key"@);
        let objects = required_as(j.required("objects"@), reader::<Vec<VideoObject>>());
        let frames = required_as(j.required("frames"@), reader::<Vec<Frame>>());
        let frames_count = j.req_u64("framesCount"@);
        if size is Err {
            Err(size->Err_0)
        } else if description is Err {
            Err(description->Err_0)
        } else if tags is Err {
            Err(tags->Err_0)
        } else if key is Err {
            Err(key->Err_0)
        } else if objects is Err {
            Err(objects->Err_0)
        } else if frames is Err {
            Err(frames->Err_0)
        } else if frames_count is Err {
            Err(frames_count->Err_0)
        } else {
            Ok(
                VideoAnnotationView {
                    size: size->Ok_0,
                    description: description->Ok_0,
                    tags: tags->Ok_0,
                    key: key->Ok_0,
                    objects: objects->Ok_0,
                    frames: frames->Ok_0,
                    frames_count: frames_count->Ok_0,
                },
            )
        }
    }

    /// Reads the annotation of a video.
    fn decode(j: &Json) -> (r: Result<VideoAnnotation, SchemaError>) {
        let size = decode_member::<Size>(j, "size")?;
        let description = j.req_text("description")?;
        let tags = decode_list_or_empty::<Tag>(j, "tags")?;
        let key = j.req_text("key")?;
        let objects = decode_member::<Vec<VideoObject>>(j, "objects")?;
        let frames = decode_member::<Vec<Frame>>(j, "frames")?;
        let frames_count = j.req_u64("framesCount")?;
        Ok(VideoAnnotation { size, description, tags, key, objects, frames, frames_count })
    }
}

/// The annotation of a point cloud.
#[derive(Debug, Clone, PartialEq, Eq)]
pub struct PointCloudAnnotation {
    pub description: String,
    pub key: Option<String>,
    pub tags: Vec<Tag>,
    pub objects: Vec<PointCloudObject>,
    pub figures: Vec<PointCloudFigure>,
}

/// The model of a [`PointCloudAnnotation`].
pub struct PointCloudAnnotationView {
    pub description: Seq<char>,
    pub key: Option<Seq<char>>,
    pub tags: Seq<TagView>,
    pub objects: Seq<PointCloudObjectView>,
    pub figures: Seq<PointCloudFigureView>,
}

impl DeepView for PointCloudAnnotation {
    type V = PointCloudAnnotationView;

    open spec fn deep_view(&self) -> PointCloudAnnotationView {
        PointCloudAnnotationView {
            description: self.description@,
            key: self.key.deep_view(),
            tags: self.tags.deep_view(),
            objects: self.objects.deep_view(),
            figures: self.figures.deep_view(),
        }
    }
}

impl Decode for PointCloudAnnotation {
    open spec fn read(j: JsonView) -> Result<PointCloudAnnotationView, SchemaError> {
        let description = j.req_text("description"@);
        let key = j.opt_text("key"@);
        let tags = list_or_empty(optional_as(j.optional("tags"@), reader::<Vec<Tag>>()));
        let objects = required_as(j.required("objects"@), reader::<Vec<PointCloudObject>>());
        let figures = required_as(j.required("figures"@), reader::<Vec<PointCloudFigure>>());
        if description is Err {
            Err(description->Err_0)
        } else if key is Err {
            Err(key->Err_0)
        } else if tags is Err {
            Err(tags->Err_0)
        } else if objects is Err {
            Err(objects->Err_0)
        } else if figures is Err {
            Err(figures->Err_0)
        } else {
            Ok(
                PointCloudAnnotationView {
                    description: description->Ok_0,
                    key: key->Ok_0,
                    tags: tags->Ok_0,
                    objects: objects->Ok_0,
                    figures: figures->Ok_0,
                },
            )
        }
    }

    /// Reads the annotation of a point cloud.
    fn decode(j: &Json) -> (r: Result<PointCloudAnnotation, SchemaError>) {
        let description = j.req_text("description")?;
        let key = j.opt_text("key")?;
        let tags = decode_list_or_empty::<Tag>(j, "tags")?;
        let objects = decode_member::<Vec<PointCloudObject>>(j, "objects")?;
        let figures = decode_member::<Vec<PointCloudFigure>>(j, "figures")?;
        Ok(PointCloudAnnotation { description, key, tags, objects, figures })
    }
}

/// Each frame stands at the position that its index names.
pub open spec fn frames_in_place(frames: Seq<FrameView>) -> bool {
    forall|i: int| 0 <= i < frames.len() ==> (#[trigger] frames[i]).index == i
}

/// The annotation of an episode of point clouds: objects for the whole
/// episode, figures frame by frame.
#[derive(Debug, Clone, PartialEq, Eq)]
pub struct PointCloudEpisodeAnnotation {
    pub description: String,
    pub key: Option<String>,
    pub tags: Vec<Tag>,
    pub objects: Vec<PointCloudObject>,
    pub frames: Vec<Frame>,
}

/// The model of a [`PointCloudEpisodeAnnotation`].
pub struct PointCloudEpisodeAnnotationView {
    pub description: Seq<char>,
    pub key: Option<Seq<char>>,
    pub tags: Seq<TagView>,
    pub objects: Seq<PointCloudObjectView>,
    pub frames: Seq<FrameView>,
}

impl DeepView for PointCloudEpisodeAnnotation {
    type V = PointCloudEpisodeAnnotationView;

    open spec fn deep_view(&self) -> PointCloudEpisodeAnnotationView {
        PointCloudEpisodeAnnotationView {
            description: self.description@,
            key: self.key.deep_view(),
            tags: self.tags.deep_view(),
            objects: self.objects.deep_view(),
            frames: self.frames.deep_view(),
        }
    }
}

/// Whether every frame stands at the position that its index names.
pub fn frames_are_in_place(frames: &Vec<Frame>) -> (r: bool)
    ensures
        r == frames_in_place(frames.deep_view()),
{
    let mut i: usize = 0;
    while i < frames.len()
        invariant
            i <= frames.len(),
            forall|k: int| 0 <= k < i ==> (#[trigger] frames.deep_view()[k]).index == k,
        decreases frames.len() - i,
    {
        assert(frames.deep_view()[i as int] == frames[i as int].deep_view());
        if frames[i].index != i as u64 {
            return false;
        }
        i += 1;
    }
    true
}

impl Decode for PointCloudEpisodeAnnotation {
    open spec fn read(j: JsonView) -> Result<PointCloudEpisodeAnnotationView, SchemaError> {
        let description = j.req_text("description"@);
        let key = j.opt_text("key"@);
        let tags = list_or_empty(optional_as(j.optional("tags"@), reader::<Vec<Tag>>()));
        let objects = required_as(j.required("objects"@), reader::<Vec<PointCloudObject>>());
        let frames = required_as(j.required("frames"@), reader::<Vec<Frame>>());
        if description is Err {
            Err(description->Err_0)
        } else if key is Err {
            Err(key->Err_0)
        } else if tags is Err {
            Err(tags->Err_0)
        } else if objects is Err {
            Err(objects->Err_0)
        } else if frames is Err {
            Err(frames->Err_0)
        } else if !frames_in_place(frames->Ok_0) {
            Err(SchemaError::FrameIndexMismatch)
        } else {
            Ok(
                PointCloudEpisodeAnnotationView {
                    description: description->Ok_0,
                    key: key->Ok_0,
                    tags: tags->Ok_0,
                    objects: objects->Ok_0,
                    frames: frames->Ok_0,
                },
            )
        }
    }

    /// Reads the annotation of an episode. A frame list that is out of
    /// order or has gaps is refused: frames are found by position.
    fn decode(j: &Json) -> (r: Result<PointCloudEpisodeAnnotation, SchemaError>) {
        let description = j.req_text("description")?;
        let key = j.opt_text("key")?;
        let tags = decode_list_or_empty::<Tag>(j, "tags")?;
        let objects = decode_member::<Vec<PointCloudObject>>(j, "objects")?;
        let frames = decode_member::<Vec<Frame>>(j, "frames")?;
        if !frames_are_in_place(&frames) {
            return Err(SchemaError::FrameIndexMismatch);
        }
        Ok(PointCloudEpisodeAnnotation { description, key, tags, objects, frames })
    }
}

/// The annotation of one item of a dataset, by the kind of its media.
#[derive(Debug, Clone, PartialEq, Eq)]
pub enum MediaAnnotation {
    Image(ImageAnnotation),
    Video(VideoAnnotation),
    PointCloud(PointCloudAnnotation),
}

impl From<ImageAnnotation> for MediaAnnotation {
    fn from(v: ImageAnnotation) -> (r: Self) {
        MediaAnnotation::Image(v)
    }
}

impl FromSpecImpl<ImageAnnotation> for MediaAnnotation {
    open spec fn obeys_from_spec() -> bool {
        true
    }

    open spec fn from_spec(v: ImageAnnotation) -> Self {
        MediaAnnotation::Image(v)
    }
}

impl From<VideoAnnotation> for MediaAnnotation {
    fn from(v: VideoAnnotation) -> (r: Self) {
        MediaAnnotation::Video(v)
    }
}

impl FromSpecImpl<VideoAnnotation> for MediaAnnotation {
    open spec fn obeys_from_spec() -> bool {
        true
    }

    open spec fn from_spec(v: VideoAnnotation) -> Self {
        MediaAnnotation::Video(v)
    }
}

impl From<PointCloudAnnotation> for MediaAnnotation {
    fn from(v: PointCloudAnnotation) -> (r: Self) {
        MediaAnnotation::PointCloud(v)
    }
}

impl FromSpecImpl<PointCloudAnnotation> for MediaAnnotation {
    open spec fn obeys_from_spec() -> bool {
        true
    }

    open spec fn from_spec(v: PointCloudAnnotation) -> Self {
        MediaAnnotation::PointCloud(v)
    }
}

/// The model of a [`MediaAnnotation`].
pub enum MediaAnnotationView {
    Image(ImageAnnotationView),
    Video(VideoAnnotationView),
    PointCloud(PointCloudAnnotationView),
}

impl DeepView for MediaAnnotation {
    type V = MediaAnnotationView;

    open spec fn deep_view(&self) -> MediaAnnotationView {
        match self {
            MediaAnnotation::Image(a) => MediaAnnotationView::Image(a.deep_view()),
            MediaAnnotation::Video(a) => MediaAnnotationView::Video(a.deep_view()),
            MediaAnnotation::PointCloud(a) => MediaAnnotationView::PointCloud(a.deep_view()),
        }
    }
}

} // verus!
