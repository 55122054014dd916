//! The closed set of shapes and their flattened wire form: a discriminator
//! member beside the members of the shape it selects, all in one object.

use crate::error::SchemaError;
use crate::finite::Finite;
use crate::json::{
    built, decoded, lemma_built, members_view, optional_as, present, push_member, push_present,
    required_as, Json, JsonNumber, JsonView,
};
use crate::tags::{Tag, TagView};
use crate::text::same_text;
use crate::wire::{
    decode_member, decode_opt_member, encode_opt, reader, write_opt, Decode, Encode,
};
use vstd::prelude::*;
use vstd::std_specs::convert::FromSpecImpl;

verus! {

/// The shape that a class of objects is drawn with.
#[derive(Debug, Clone, Copy, PartialEq, Eq, Structural)]
pub enum Shape {
    Rectangle,
    Line,
    Polygon,
    Point,
    Bitmap,
    Cuboid3D,
}

/// The shape that a name on the wire selects.
pub open spec fn shape_of_name(name: Seq<char>) -> Option<Shape> {
    if name == "rectangle"@ {
        Some(Shape::Rectangle)
    } else if name == "line"@ {
        Some(Shape::Line)
    } else if name == "polygon"@ {
        Some(Shape::Polygon)
    } else if name == "point"@ {
        Some(Shape::Point)
    } else if name == "bitmap"@ {
        Some(Shape::Bitmap)
    } else if name == "cuboid_3d"@ {
        Some(Shape::Cuboid3D)
    } else {
        None
    }
}

/// The name of a shape on the wire.
pub open spec fn name_of_shape(shape: Shape) -> Seq<char> {
    match shape {
        Shape::Rectangle => "rectangle"@,
        Shape::Line => "line"@,
        Shape::Polygon => "polygon"@,
        Shape::Point => "point"@,
        Shape::Bitmap => "bitmap"@,
        Shape::Cuboid3D => "cuboid_3d"@,
    }
}

impl Shape {
    /// The shape that `name` selects, if it selects one.
    pub fn parse(name: &str) -> (r: Option<Shape>)
        ensures
            r == shape_of_name(name@),
    {
        if same_text(name, "rectangle") {
            Some(Shape::Rectangle)
        } else if same_text(name, "line") {
            Some(Shape::Line)
        } else if same_text(name, "polygon") {
            Some(Shape::Polygon)
        } else if same_text(name, "point") {
            Some(Shape::Point)
        } else if same_text(name, "bitmap") {
            Some(Shape::Bitmap)
        } else if same_text(name, "cuboid_3d") {
            Some(Shape::Cuboid3D)
        } else {
            None
        }
    }

    /// The name of the shape on the wire.
    pub fn name(&self) -> (r: &'static str)
        ensures
            r@ == name_of_shape(*self),
    {
        match self {
            Shape::Rectangle => "rectangle",
            Shape::Line => "line",
            Shape::Polygon => "polygon",
            Shape::Point => "point",
            Shape::Bitmap => "bitmap",
            Shape::Cuboid3D => "cuboid_3d",
        }
    }
}

impl Default for Shape {
    fn default() -> (r: Shape)
        ensures
            r == Shape::Cuboid3D,
    {
        Shape::Cuboid3D
    }
}

impl DeepView for Shape {
    type V = Shape;

    open spec fn deep_view(&self) -> Shape {
        *self
    }
}

impl Decode for Shape {
    open spec fn read(j: JsonView) -> Result<Shape, SchemaError> {
        match j {
            JsonView::Text(name) => match shape_of_name(name) {
                Some(shape) => Ok(shape),
                None => Err(SchemaError::InvalidType),
            },
            _ => Err(SchemaError::InvalidType),
        }
    }

    /// Reads a shape from its name.
    fn decode(j: &Json) -> (r: Result<Shape, SchemaError>) {
        match j {
            Json::Text(name) => match Shape::parse(name.as_str()) {
                Some(shape) => Ok(shape),
                None => Err(SchemaError::InvalidType),
            },
            _ => Err(SchemaError::InvalidType),
        }
    }
}

impl Encode for Shape {
    open spec fn write(shape: Shape) -> JsonView {
        JsonView::Text(name_of_shape(shape))
    }

    /// Writes a shape as its name.
    fn encode(&self) -> (r: Json) {
        Json::of_text(self.name())
    }
}

/// The six values of the geometry discriminator.
#[derive(Debug, Clone, Copy, PartialEq, Eq, Structural)]
pub enum GeometryType {
    Point,
    Rectangle,
    Polygon,
    Polyline,
    Bitmap,
    Cuboid3D,
}

/// The geometry kind that a discriminator string selects.
pub open spec fn geometry_type_of_name(name: Seq<char>) -> Option<GeometryType> {
    if name == "point"@ {
        Some(GeometryType::Point)
    } else if name == "rectangle"@ {
        Some(GeometryType::Rectangle)
    } else if name == "polygon"@ {
        Some(GeometryType::Polygon)
    } else if name == "polyline"@ {
        Some(GeometryType::Polyline)
    } else if name == "bitmap"@ {
        Some(GeometryType::Bitmap)
    } else if name == "cuboid_3d"@ {
        Some(GeometryType::Cuboid3D)
    } else {
        None
    }
}

/// The discriminator string of a geometry kind.
pub open spec fn name_of_geometry_type(kind: GeometryType) -> Seq<char> {
    match kind {
        GeometryType::Point => "point"@,
        GeometryType::Rectangle => "rectangle"@,
        GeometryType::Polygon => "polygon"@,
        GeometryType::Polyline => "polyline"@,
        GeometryType::Bitmap => "bitmap"@,
        GeometryType::Cuboid3D => "cuboid_3d"@,
    }
}

impl GeometryType {
    /// The kind that `name` selects, if it is one of the six.
    pub fn parse(name: &str) -> (r: Option<GeometryType>)
        ensures
            r == geometry_type_of_name(name@),
    {
        if same_text(name, "point") {
            Some(GeometryType::Point)
        } else if same_text(name, "rectangle") {
            Some(GeometryType::Rectangle)
        } else if same_text(name, "polygon") {
            Some(GeometryType::Polygon)
        } else if same_text(name, "polyline") {
            Some(GeometryType::Polyline)
        } else if same_text(name, "bitmap") {
            Some(GeometryType::Bitmap)
        } else if same_text(name, "cuboid_3d") {
            Some(GeometryType::Cuboid3D)
        } else {
            None
        }
    }

    /// The discriminator string of the kind.
    pub fn name(&self) -> (r: &'static str)
        ensures
            r@ == name_of_geometry_type(*self),
    {
        match self {
            GeometryType::Point => "point",
            GeometryType::Rectangle => "rectangle",
            GeometryType::Polygon => "polygon",
            GeometryType::Polyline => "polyline",
            GeometryType::Bitmap => "bitmap",
            GeometryType::Cuboid3D => "cuboid_3d",
        }
    }
}

/// A point of the plane.
pub type Coordinate = (Finite, Finite);

impl Decode for (Finite, Finite) {
    open spec fn read(j: JsonView) -> Result<(JsonNumber, JsonNumber), SchemaError> {
        match j {
            JsonView::Array(items) => if items.len() != 2 {
                Err(SchemaError::InvalidType)
            } else {
                match Finite::read(items[0]) {
                    Ok(x) => match Finite::read(items[1]) {
                        Ok(y) => Ok((x, y)),
                        Err(e) => Err(e),
                    },
                    Err(e) => Err(e),
                }
            },
            _ => Err(SchemaError::InvalidType),
        }
    }

    /// Reads a point from an array of two finite numbers.
    fn decode(j: &Json) -> (r: Result<(Finite, Finite), SchemaError>) {
        let items = j.as_items()?;
        if items.len() != 2 {
            return Err(SchemaError::InvalidType);
        }
        assert(items.deep_view()[0] == items[0].deep_view());
        assert(items.deep_view()[1] == items[1].deep_view());
        let x = Finite::decode(&items[0])?;
        let y = Finite::decode(&items[1])?;
        Ok((x, y))
    }
}

impl Encode for (Finite, Finite) {
    open spec fn write(p: (JsonNumber, JsonNumber)) -> JsonView {
        JsonView::Array(seq![JsonView::Number(p.0), JsonView::Number(p.1)])
    }

    /// Writes a point as an array of two numbers.
    fn encode(&self) -> (r: Json) {
        let mut items: Vec<Json> = Vec::new();
        items.push(self.0.encode());
        items.push(self.1.encode());
        assert(items.deep_view() =~= seq![
            JsonView::Number(self.0.deep_view()),
            JsonView::Number(self.1.deep_view()),
        ]);
        Json::array(items)
    }
}

/// The outline of a flat shape: its boundary, then its holes, each a list
/// of points whose order is the shape.
#[derive(Debug, Clone, PartialEq, Eq)]
pub struct Points {
    pub exterior: Vec<(Finite, Finite)>,
    pub interior: Vec<Vec<(Finite, Finite)>>,
}

/// The model of [`Points`].
pub struct PointsView {
    pub exterior: Seq<(JsonNumber, JsonNumber)>,
    pub interior: Seq<Seq<(JsonNumber, JsonNumber)>>,
}

impl DeepView for Points {
    type V = PointsView;

    open spec fn deep_view(&self) -> PointsView {
        PointsView { exterior: self.exterior.deep_view(), interior: self.interior.deep_view() }
    }
}

/// The members of the wire form of an outline.
pub open spec fn points_members(p: PointsView) -> Seq<(Seq<char>, JsonView)> {
    seq![
        ("exterior"@, <Vec<(Finite, Finite)>>::write(p.exterior)),
        ("interior"@, <Vec<Vec<(Finite, Finite)>>>::write(p.interior)),
    ]
}

impl Decode for Points {
    open spec fn read(j: JsonView) -> Result<PointsView, SchemaError> {
        let exterior = required_as(j.required("exterior"@), reader::<Vec<(Finite, Finite)>>());
        let interior = required_as(
            j.required("interior"@),
            reader::<Vec<Vec<(Finite, Finite)>>>(),
        );
        if exterior is Err {
            Err(exterior->Err_0)
        } else if interior is Err {
            Err(interior->Err_0)
        } else {
            Ok(PointsView { exterior: exterior->Ok_0, interior: interior->Ok_0 })
        }
    }

    /// Reads an outline from an object with `exterior` and `interior`.
    fn decode(j: &Json) -> (r: Result<Points, SchemaError>) {
        let exterior = decode_member::<Vec<(Finite, Finite)>>(j, "exterior")?;
        let interior = decode_member::<Vec<Vec<(Finite, Finite)>>>(j, "interior")?;
        Ok(Points { exterior, interior })
    }
}

impl Encode for Points {
    open spec fn write(p: PointsView) -> JsonView {
        JsonView::Object(points_members(p))
    }

    /// Writes an outline as an object with `exterior` and `interior`.
    fn encode(&self) -> (r: Json) {
        let mut members: Vec<(String, Json)> = Vec::new();
        assert(members_view(members@) =~= Seq::empty());
        push_member(&mut members, "exterior", self.exterior.encode());
        push_member(&mut members, "interior", self.interior.encode());
        assert(members_view(members@) =~= points_members(self.deep_view()));
        Json::object(members)
    }
}

/// A mask: where it lies, and its pixels as base64 text over a zlib stream.
#[derive(Debug, Clone, PartialEq, Eq)]
pub struct Bitmap {
    pub data_encoded: String,
    pub origin: [u64; 2],
}

/// The model of a [`Bitmap`].
pub struct BitmapView {
    pub data_encoded: Seq<char>,
    pub origin: (u64, u64),
}

impl DeepView for Bitmap {
    type V = BitmapView;

    open spec fn deep_view(&self) -> BitmapView {
        BitmapView { data_encoded: self.data_encoded@, origin: (self.origin[0], self.origin[1]) }
    }
}

/// The offset that an array of two non-negative integers stands for.
pub open spec fn origin_of_json(j: JsonView) -> Result<(u64, u64), SchemaError> {
    match j {
        JsonView::Array(items) => if items.len() != 2 {
            Err(SchemaError::InvalidType)
        } else {
            match items[0].as_u64() {
                Ok(x) => match items[1].as_u64() {
                    Ok(y) => Ok((x, y)),
                    Err(e) => Err(e),
                },
                Err(e) => Err(e),
            }
        },
        _ => Err(SchemaError::InvalidType),
    }
}

/// The members of the wire form of a mask.
pub open spec fn bitmap_members(b: BitmapView) -> Seq<(Seq<char>, JsonView)> {
    seq![
        ("data"@, JsonView::Text(b.data_encoded)),
        (
            "origin"@,
            JsonView::Array(
                seq![
                    JsonView::Number(JsonNumber::PosInt(b.origin.0)),
                    JsonView::Number(JsonNumber::PosInt(b.origin.1)),
                ],
            ),
        ),
    ]
}

impl Decode for Bitmap {
    open spec fn read(j: JsonView) -> Result<BitmapView, SchemaError> {
        let data = j.req_text("data"@);
        let origin = required_as(j.required("origin"@), |v: JsonView| origin_of_json(v));
        if data is Err {
            Err(data->Err_0)
        } else if origin is Err {
            Err(origin->Err_0)
        } else {
            Ok(BitmapView { data_encoded: data->Ok_0, origin: origin->Ok_0 })
        }
    }

    /// Reads a mask from an object with `data` and `origin`. The payload is
    /// kept as text and not unpacked.
    fn decode(j: &Json) -> (r: Result<Bitmap, SchemaError>) {
        let data_encoded = j.req_text("data")?;
        let items = j.required("origin")?.as_items()?;
        if items.len() != 2 {
            return Err(SchemaError::InvalidType);
        }
        assert(items.deep_view()[0] == items[0].deep_view());
        assert(items.deep_view()[1] == items[1].deep_view());
        let x = items[0].as_u64()?;
        let y = items[1].as_u64()?;
        Ok(Bitmap { data_encoded, origin: [x, y] })
    }
}

impl Encode for Bitmap {
    open spec fn write(b: BitmapView) -> JsonView {
        JsonView::Object(bitmap_members(b))
    }

    /// Writes a mask as an object with `data` and `origin`.
    fn encode(&self) -> (r: Json) {
        let mut origin: Vec<Json> = Vec::new();
        origin.push(Json::Number(JsonNumber::PosInt(self.origin[0])));
        origin.push(Json::Number(JsonNumber::PosInt(self.origin[1])));
        assert(origin.deep_view() =~= seq![
            JsonView::Number(JsonNumber::PosInt(self.origin[0])),
            JsonView::Number(JsonNumber::PosInt(self.origin[1])),
        ]);
        let mut members: Vec<(String, Json)> = Vec::new();
        assert(members_view(members@) =~= Seq::empty());
        push_member(&mut members, "data", Json::of_text(self.data_encoded.as_str()));
        push_member(&mut members, "origin", Json::array(origin));
        assert(members_view(members@) =~= bitmap_members(self.deep_view()));
        Json::object(members)
    }
}

/// A vector of space.
#[derive(Debug, Clone, PartialEq, Eq)]
pub struct Xyz {
    pub x: Finite,
    pub y: Finite,
    pub z: Finite,
}

/// The model of an [`Xyz`].
pub struct XyzView {
    pub x: JsonNumber,
    pub y: JsonNumber,
    pub z: JsonNumber,
}

impl DeepView for Xyz {
    type V = XyzView;

    open spec fn deep_view(&self) -> XyzView {
        XyzView { x: self.x.deep_view(), y: self.y.deep_view(), z: self.z.deep_view() }
    }
}

/// The members of the wire form of a vector.
pub open spec fn xyz_members(v: XyzView) -> Seq<(Seq<char>, JsonView)> {
    seq![
        ("x"@, JsonView::Number(v.x)),
        ("y"@, JsonView::Number(v.y)),
        ("z"@, JsonView::Number(v.z)),
    ]
}

impl Decode for Xyz {
    open spec fn read(j: JsonView) -> Result<XyzView, SchemaError> {
        let x = required_as(j.required("x"@), reader::<Finite>());
        let y = required_as(j.required("y"@), reader::<Finite>());
        let z = required_as(j.required("z"@), reader::<Finite>());
        if x is Err {
            Err(x->Err_0)
        } else if y is Err {
            Err(y->Err_0)
        } else if z is Err {
            Err(z->Err_0)
        } else {
            Ok(XyzView { x: x->Ok_0, y: y->Ok_0, z: z->Ok_0 })
        }
    }

    /// Reads a vector from an object with `x`, `y` and `z`.
    fn decode(j: &Json) -> (r: Result<Xyz, SchemaError>) {
        let x = decode_member::<Finite>(j, "x")?;
        let y = decode_member::<Finite>(j, "y")?;
        let z = decode_member::<Finite>(j, "z")?;
        Ok(Xyz { x, y, z })
    }
}

impl Encode for Xyz {
    open spec fn write(v: XyzView) -> JsonView {
        JsonView::Object(xyz_members(v))
    }

    /// Writes a vector as an object with `x`, `y` and `z`.
    fn encode(&self) -> (r: Json) {
        let mut members: Vec<(String, Json)> = Vec::new();
        assert(members_view(members@) =~= Seq::empty());
        push_member(&mut members, "x", self.x.encode());
        push_member(&mut members, "y", self.y.encode());
        push_member(&mut members, "z", self.z.encode());
        assert(members_view(members@) =~= xyz_members(self.deep_view()));
        Json::object(members)
    }
}

/// A single point: the first point of its exterior.
#[derive(Debug, Clone, PartialEq, Eq)]
pub struct PointGeometry {
    pub tags: Option<Vec<Tag>>,
    pub points: Points,
}

/// A box: its two opposite corners as its exterior.
#[derive(Debug, Clone, PartialEq, Eq)]
pub struct RectangleGeometry {
    pub tags: Option<Vec<Tag>>,
    pub points: Points,
}

/// A closed outline with holes.
#[derive(Debug, Clone, PartialEq, Eq)]
pub struct PolygonGeometry {
    pub tags: Option<Vec<Tag>>,
    pub points: Points,
}

/// An open line through its points.
#[derive(Debug, Clone, PartialEq, Eq)]
pub struct PolylineGeometry {
    pub tags: Option<Vec<Tag>>,
    pub points: Points,
}

/// A mask, with the shape it was drawn as where that is recorded.
#[derive(Debug, Clone, PartialEq, Eq)]
pub struct BitmapGeometry {
    pub tags: Option<Vec<Tag>>,
    pub bitmap: Bitmap,
    pub shape: Option<Shape>,
}

/// A box in space: where it is, how it is turned, how large it is.
#[derive(Debug, Clone, PartialEq, Eq)]
pub struct Cuboid3DGeometry {
    pub tags: Option<Vec<Tag>>,
    pub position: Xyz,
    pub rotation: Xyz,
    pub dimensions: Xyz,
}

/// The model of the four shapes that are an outline with tags.
pub struct OutlineView {
    pub tags: Option<Seq<TagView>>,
    pub points: PointsView,
}

/// The model of a [`BitmapGeometry`].
pub struct BitmapGeometryView {
    pub tags: Option<Seq<TagView>>,
    pub bitmap: BitmapView,
    pub shape: Option<Shape>,
}

/// The model of a [`Cuboid3DGeometry`].
pub struct Cuboid3DGeometryView {
    pub tags: Option<Seq<TagView>>,
    pub position: XyzView,
    pub rotation: XyzView,
    pub dimensions: XyzView,
}

impl DeepView for PointGeometry {
    type V = OutlineView;

    open spec fn deep_view(&self) -> OutlineView {
        OutlineView { tags: self.tags.deep_view(), points: self.points.deep_view() }
    }
}

impl DeepView for RectangleGeometry {
    type V = OutlineView;

    open spec fn deep_view(&self) -> OutlineView {
        OutlineView { tags: self.tags.deep_view(), points: self.points.deep_view() }
    }
}

impl DeepView for PolygonGeometry {
    type V = OutlineView;

    open spec fn deep_view(&self) -> OutlineView {
        OutlineView { tags: self.tags.deep_view(), points: self.points.deep_view() }
    }
}

impl DeepView for PolylineGeometry {
    type V = OutlineView;

    open spec fn deep_view(&self) -> OutlineView {
        OutlineView { tags: self.tags.deep_view(), points: self.points.deep_view() }
    }
}

impl DeepView for BitmapGeometry {
    type V = BitmapGeometryView;

    open spec fn deep_view(&self) -> BitmapGeometryView {
        BitmapGeometryView {
            tags: self.tags.deep_view(),
            bitmap: self.bitmap.deep_view(),
            shape: self.shape,
        }
    }
}

impl DeepView for Cuboid3DGeometry {
    type V = Cuboid3DGeometryView;

    open spec fn deep_view(&self) -> Cuboid3DGeometryView {
        Cuboid3DGeometryView {
            tags: self.tags.deep_view(),
            position: self.position.deep_view(),
            rotation: self.rotation.deep_view(),
            dimensions: self.dimensions.deep_view(),
        }
    }
}

/// A shape: one of six, each with its own payload.
#[derive(Debug, Clone, PartialEq, Eq)]
pub enum Geometry {
    Point(PointGeometry),
    Rectangle(RectangleGeometry),
    Polygon(PolygonGeometry),
    Polyline(PolylineGeometry),
    Bitmap(BitmapGeometry),
    Cuboid3D(Cuboid3DGeometry),
}

impl From<PointGeometry> for Geometry {
    fn from(v: PointGeometry) -> (r: Self) {
        Geometry::Point(v)
    }
}

impl FromSpecImpl<PointGeometry> for Geometry {
    open spec fn obeys_from_spec() -> bool {
        true
    }

    open spec fn from_spec(v: PointGeometry) -> Self {
        Geometry::Point(v)
    }
}

impl From<RectangleGeometry> for Geometry {
    fn from(v: RectangleGeometry) -> (r: Self) {
        Geometry::Rectangle(v)
    }
}

impl FromSpecImpl<RectangleGeometry> for Geometry {
    open spec fn obeys_from_spec() -> bool {
        true
    }

    open spec fn from_spec(v: RectangleGeometry) -> Self {
        Geometry::Rectangle(v)
    }
}

impl From<PolygonGeometry> for Geometry {
    fn from(v: PolygonGeometry) -> (r: Self) {
        Geometry::Polygon(v)
    }
}

impl FromSpecImpl<PolygonGeometry> for Geometry {
    open spec fn obeys_from_spec() -> bool {
        true
    }

    open spec fn from_spec(v: PolygonGeometry) -> Self {
        Geometry::Polygon(v)
    }
}

impl From<PolylineGeometry> for Geometry {
    fn from(v: PolylineGeometry) -> (r: Self) {
        Geometry::Polyline(v)
    }
}

impl FromSpecImpl<PolylineGeometry> for Geometry {
    open spec fn obeys_from_spec() -> bool {
        true
    }

    open spec fn from_spec(v: PolylineGeometry) -> Self {
        Geometry::Polyline(v)
    }
}

impl From<BitmapGeometry> for Geometry {
    fn from(v: BitmapGeometry) -> (r: Self) {
        Geometry::Bitmap(v)
    }
}

impl FromSpecImpl<BitmapGeometry> for Geometry {
    open spec fn obeys_from_spec() -> bool {
        true
    }

    open spec fn from_spec(v: BitmapGeometry) -> Self {
        Geometry::Bitmap(v)
    }
}

impl From<Cuboid3DGeometry> for Geometry {
    fn from(v: Cuboid3DGeometry) -> (r: Self) {
        Geometry::Cuboid3D(v)
    }
}

impl FromSpecImpl<Cuboid3DGeometry> for Geometry {
    open spec fn obeys_from_spec() -> bool {
        true
    }

    open spec fn from_spec(v: Cuboid3DGeometry) -> Self {
        Geometry::Cuboid3D(v)
    }
}

/// The model of a [`Geometry`].
pub enum GeometryView {
    Point(OutlineView),
    Rectangle(OutlineView),
    Polygon(OutlineView),
    Polyline(OutlineView),
    Bitmap(BitmapGeometryView),
    Cuboid3D(Cuboid3DGeometryView),
}

impl DeepView for Geometry {
    type V = GeometryView;

    open spec fn deep_view(&self) -> GeometryView {
        match self {
            Geometry::Point(g) => GeometryView::Point(g.deep_view()),
            Geometry::Rectangle(g) => GeometryView::Rectangle(g.deep_view()),
            Geometry::Polygon(g) => GeometryView::Polygon(g.deep_view()),
            Geometry::Polyline(g) => GeometryView::Polyline(g.deep_view()),
            Geometry::Bitmap(g) => GeometryView::Bitmap(g.deep_view()),
            Geometry::Cuboid3D(g) => GeometryView::Cuboid3D(g.deep_view()),
        }
    }
}

impl GeometryView {
    /// Which of the six kinds the shape is.
    pub open spec fn kind(self) -> GeometryType {
        match self {
            GeometryView::Point(_) => GeometryType::Point,
            GeometryView::Rectangle(_) => GeometryType::Rectangle,
            GeometryView::Polygon(_) => GeometryType::Polygon,
            GeometryView::Polyline(_) => GeometryType::Polyline,
            GeometryView::Bitmap(_) => GeometryType::Bitmap,
            GeometryView::Cuboid3D(_) => GeometryType::Cuboid3D,
        }
    }
}

/// The tags that an object holds beside a shape's payload, if it holds any.
pub open spec fn tags_of_json(j: JsonView) -> Result<Option<Seq<TagView>>, SchemaError> {
    optional_as(j.optional("tags"@), reader::<Vec<Tag>>())
}

/// The outline with tags that an object holds.
pub open spec fn outline_of_json(j: JsonView) -> Result<OutlineView, SchemaError> {
    let tags = tags_of_json(j);
    let points = required_as(j.required("points"@), reader::<Points>());
    if tags is Err {
        Err(tags->Err_0)
    } else if points is Err {
        Err(points->Err_0)
    } else {
        Ok(OutlineView { tags: tags->Ok_0, points: points->Ok_0 })
    }
}

/// The mask with tags that an object holds.
pub open spec fn bitmap_geometry_of_json(j: JsonView) -> Result<BitmapGeometryView, SchemaError> {
    let tags = tags_of_json(j);
    let bitmap = required_as(j.required("bitmap"@), reader::<Bitmap>());
    let shape = optional_as(j.optional("shape"@), reader::<Shape>());
    if tags is Err {
        Err(tags->Err_0)
    } else if bitmap is Err {
        Err(bitmap->Err_0)
    } else if shape is Err {
        Err(shape->Err_0)
    } else {
        Ok(BitmapGeometryView { tags: tags->Ok_0, bitmap: bitmap->Ok_0, shape: shape->Ok_0 })
    }
}

/// The box in space with tags that an object holds.
pub open spec fn cuboid_of_json(j: JsonView) -> Result<Cuboid3DGeometryView, SchemaError> {
    let tags = tags_of_json(j);
    let position = required_as(j.required("position"@), reader::<Xyz>());
    let rotation = required_as(j.required("rotation"@), reader::<Xyz>());
    let dimensions = required_as(j.required("dimensions"@), reader::<Xyz>());
    if tags is Err {
        Err(tags->Err_0)
    } else if position is Err {
        Err(position->Err_0)
    } else if rotation is Err {
        Err(rotation->Err_0)
    } else if dimensions is Err {
        Err(dimensions->Err_0)
    } else {
        Ok(
            Cuboid3DGeometryView {
                tags: tags->Ok_0,
                position: position->Ok_0,
                rotation: rotation->Ok_0,
                dimensions: dimensions->Ok_0,
            },
        )
    }
}

/// The shape of the kind `kind` that the members of an object make up.
pub open spec fn geometry_of_kind(kind: GeometryType, j: JsonView) -> Result<
    GeometryView,
    SchemaError,
> {
    match kind {
        GeometryType::Point => match outline_of_json(j) {
            Ok(g) => Ok(GeometryView::Point(g)),
            Err(e) => Err(e),
        },
        GeometryType::Rectangle => match outline_of_json(j) {
            Ok(g) => Ok(GeometryView::Rectangle(g)),
            Err(e) => Err(e),
        },
        GeometryType::Polygon => match outline_of_json(j) {
            Ok(g) => Ok(GeometryView::Polygon(g)),
            Err(e) => Err(e),
        },
        GeometryType::Polyline => match outline_of_json(j) {
            Ok(g) => Ok(GeometryView::Polyline(g)),
            Err(e) => Err(e),
        },
        GeometryType::Bitmap => match bitmap_geometry_of_json(j) {
            Ok(g) => Ok(GeometryView::Bitmap(g)),
            Err(e) => Err(e),
        },
        GeometryType::Cuboid3D => match cuboid_of_json(j) {
            Ok(g) => Ok(GeometryView::Cuboid3D(g)),
            Err(e) => Err(e),
        },
    }
}

/// The shape that an object stands for: its member `geometryType` selects
/// the kind, and the members beside it are the payload of that kind. A
/// discriminator outside the six is refused as an unknown kind.
pub open spec fn geometry_of_json(j: JsonView) -> Result<GeometryView, SchemaError> {
    match j.req_text("geometryType"@) {
        Ok(name) => match geometry_type_of_name(name) {
            Some(kind) => geometry_of_kind(kind, j),
            None => Err(SchemaError::UnknownGeometryKind),
        },
        Err(e) => Err(e),
    }
}

/// The members of an outline behind the discriminator `kind`: the
/// discriminator, the tags where there are any, the points.
pub open spec fn outline_members(kind: GeometryType, g: OutlineView) -> Seq<
    (Seq<char>, JsonView),
> {
    present(all_outline_members(kind, g))
}

/// The members of a mask behind its discriminator: the discriminator, the
/// tags where there are any, the bitmap, the shape where it is recorded.
pub open spec fn bitmap_geometry_members(g: BitmapGeometryView) -> Seq<(Seq<char>, JsonView)> {
    present(all_bitmap_geometry_members(g))
}

/// The members of a box in space behind its discriminator: the
/// discriminator, the tags where there are any, the three vectors.
pub open spec fn cuboid_members(g: Cuboid3DGeometryView) -> Seq<(Seq<char>, JsonView)> {
    present(all_cuboid_members(g))
}

/// The three members of an outline in the order they are written, absent
/// tags as `null`.
pub open spec fn all_outline_members(kind: GeometryType, g: OutlineView) -> Seq<
    (Seq<char>, JsonView),
> {
    seq![
        ("geometryType"@, JsonView::Text(name_of_geometry_type(kind))),
        ("tags"@, write_opt::<Vec<Tag>>(g.tags)),
        ("points"@, Points::write(g.points)),
    ]
}

/// The four members of a mask in the order they are written, absent ones
/// as `null`.
pub open spec fn all_bitmap_geometry_members(g: BitmapGeometryView) -> Seq<
    (Seq<char>, JsonView),
> {
    seq![
        ("geometryType"@, JsonView::Text(name_of_geometry_type(GeometryType::Bitmap))),
        ("tags"@, write_opt::<Vec<Tag>>(g.tags)),
        ("bitmap"@, Bitmap::write(g.bitmap)),
        ("shape"@, write_opt::<Shape>(g.shape)),
    ]
}

/// The five members of a box in space in the order they are written,
/// absent tags as `null`.
pub open spec fn all_cuboid_members(g: Cuboid3DGeometryView) -> Seq<(Seq<char>, JsonView)> {
    seq![
        ("geometryType"@, JsonView::Text(name_of_geometry_type(GeometryType::Cuboid3D))),
        ("tags"@, write_opt::<Vec<Tag>>(g.tags)),
        ("position"@, Xyz::write(g.position)),
        ("rotation"@, Xyz::write(g.rotation)),
        ("dimensions"@, Xyz::write(g.dimensions)),
    ]
}

/// The members that a shape contributes to the object that holds it: the
/// discriminator, then the payload.
pub open spec fn geometry_members(g: GeometryView) -> Seq<(Seq<char>, JsonView)> {
    match g {
        GeometryView::Point(o) => outline_members(GeometryType::Point, o),
        GeometryView::Rectangle(o) => outline_members(GeometryType::Rectangle, o),
        GeometryView::Polygon(o) => outline_members(GeometryType::Polygon, o),
        GeometryView::Polyline(o) => outline_members(GeometryType::Polyline, o),
        GeometryView::Bitmap(b) => bitmap_geometry_members(b),
        GeometryView::Cuboid3D(c) => cuboid_members(c),
    }
}

/// Reads the tags and the outline that stand beside a discriminator.
fn decode_outline(j: &Json) -> (r: Result<(Option<Vec<Tag>>, Points), SchemaError>)
    ensures
        match r {
            Ok(o) => outline_of_json(j.deep_view()) == Ok::<OutlineView, SchemaError>(
                OutlineView { tags: o.0.deep_view(), points: o.1.deep_view() },
            ),
            Err(e) => outline_of_json(j.deep_view()) == Err::<OutlineView, SchemaError>(e),
        },
{
    let tags = decode_opt_member::<Vec<Tag>>(j, "tags")?;
    let points = decode_member::<Points>(j, "points")?;
    Ok((tags, points))
}

/// Writes the discriminator, the tags and the outline.
fn encode_outline(kind: GeometryType, tags: &Option<Vec<Tag>>, points: &Points) -> (r: Vec<
    (String, Json),
>)
    ensures
        members_view(r@) == outline_members(
            kind,
            OutlineView { tags: tags.deep_view(), points: points.deep_view() },
        ),
{
    let mut members: Vec<(String, Json)> = Vec::new();
    assert(members_view(members@) =~= Seq::empty());
    push_present(&mut members, "geometryType", Json::of_text(kind.name()));
    push_present(&mut members, "tags", encode_opt::<Vec<Tag>>(tags));
    push_present(&mut members, "points", points.encode());
    proof {
        reveal_with_fuel(built, 4);
        lemma_built(
            all_outline_members(
                kind,
                OutlineView { tags: tags.deep_view(), points: points.deep_view() },
            ),
        );
    }
    members
}

impl Decode for Geometry {
    open spec fn read(j: JsonView) -> Result<GeometryView, SchemaError> {
        geometry_of_json(j)
    }

    /// Reads a shape from the object that holds its discriminator and,
    /// beside it, its payload. Members that belong to neither are passed
    /// over.
    fn decode(j: &Json) -> (r: Result<Geometry, SchemaError>) {
        assert(Self::read(j.deep_view()) == geometry_of_json(j.deep_view()));
        let name = j.req_text("geometryType")?;
        match GeometryType::parse(name.as_str()) {
            Some(kind) => Geometry::decode_as(kind, j),
            None => Err(SchemaError::UnknownGeometryKind),
        }
    }
}

impl Geometry {
    /// Reads the shape of the kind `kind` from the members of an object.
    /// The discriminator of the object is not looked at.
    pub fn decode_as(kind: GeometryType, j: &Json) -> (r: Result<Geometry, SchemaError>)
        ensures
            decoded(r) == geometry_of_kind(kind, j.deep_view()),
    {
        match kind {
            GeometryType::Point => {
                let (tags, points) = decode_outline(j)?;
                Ok(Geometry::Point(PointGeometry { tags, points }))
            },
            GeometryType::Rectangle => {
                let (tags, points) = decode_outline(j)?;
                Ok(Geometry::Rectangle(RectangleGeometry { tags, points }))
            },
            GeometryType::Polygon => {
                let (tags, points) = decode_outline(j)?;
                Ok(Geometry::Polygon(PolygonGeometry { tags, points }))
            },
            GeometryType::Polyline => {
                let (tags, points) = decode_outline(j)?;
                Ok(Geometry::Polyline(PolylineGeometry { tags, points }))
            },
            GeometryType::Bitmap => {
                let tags = decode_opt_member::<Vec<Tag>>(j, "tags")?;
                let bitmap = decode_member::<Bitmap>(j, "bitmap")?;
                let shape = decode_opt_member::<Shape>(j, "shape")?;
                Ok(Geometry::Bitmap(BitmapGeometry { tags, bitmap, shape }))
            },
            GeometryType::Cuboid3D => {
                let tags = decode_opt_member::<Vec<Tag>>(j, "tags")?;
                let position = decode_member::<Xyz>(j, "position")?;
                let rotation = decode_member::<Xyz>(j, "rotation")?;
                let dimensions = decode_member::<Xyz>(j, "dimensions")?;
                Ok(Geometry::Cuboid3D(Cuboid3DGeometry { tags, position, rotation, dimensions }))
            },
        }
    }

    /// Which of the six kinds the shape is.
    pub fn kind(&self) -> (r: GeometryType)
        ensures
            r == self.deep_view().kind(),
    {
        match self {
            Geometry::Point(_) => GeometryType::Point,
            Geometry::Rectangle(_) => GeometryType::Rectangle,
            Geometry::Polygon(_) => GeometryType::Polygon,
            Geometry::Polyline(_) => GeometryType::Polyline,
            Geometry::Bitmap(_) => GeometryType::Bitmap,
            Geometry::Cuboid3D(_) => GeometryType::Cuboid3D,
        }
    }

    /// The members that the shape contributes to the object that holds it:
    /// the discriminator, then the payload. The holder puts them beside its
    /// own members, not under a key.
    pub fn members(&self) -> (r: Vec<(String, Json)>)
        ensures
            members_view(r@) == geometry_members(self.deep_view()),
    {
        match self {
            Geometry::Point(g) => encode_outline(GeometryType::Point, &g.tags, &g.points),
            Geometry::Rectangle(g) => encode_outline(GeometryType::Rectangle, &g.tags, &g.points),
            Geometry::Polygon(g) => encode_outline(GeometryType::Polygon, &g.tags, &g.points),
            Geometry::Polyline(g) => encode_outline(GeometryType::Polyline, &g.tags, &g.points),
            Geometry::Bitmap(g) => {
                let mut members: Vec<(String, Json)> = Vec::new();
                assert(members_view(members@) =~= Seq::empty());
                push_present(
                    &mut members,
                    "geometryType",
                    Json::of_text(GeometryType::Bitmap.name()),
                );
                push_present(&mut members, "tags", encode_opt::<Vec<Tag>>(&g.tags));
                push_present(&mut members, "bitmap", g.bitmap.encode());
                push_present(&mut members, "shape", encode_opt::<Shape>(&g.shape));
                proof {
                    reveal_with_fuel(built, 5);
                    lemma_built(all_bitmap_geometry_members(g.deep_view()));
                }
                members
            },
            Geometry::Cuboid3D(g) => {
                let mut members: Vec<(String, Json)> = Vec::new();
                assert(members_view(members@) =~= Seq::empty());
                push_present(
                    &mut members,
                    "geometryType",
                    Json::of_text(GeometryType::Cuboid3D.name()),
                );
                push_present(&mut members, "tags", encode_opt::<Vec<Tag>>(&g.tags));
                push_present(&mut members, "position", g.position.encode());
                push_present(&mut members, "rotation", g.rotation.encode());
                push_present(&mut members, "dimensions", g.dimensions.encode());
                proof {
                    reveal_with_fuel(built, 6);
                    lemma_built(all_cuboid_members(g.deep_view()));
                }
                members
            },
        }
    }
}

impl Encode for Geometry {
    open spec fn write(g: GeometryView) -> JsonView {
        JsonView::Object(geometry_members(g))
    }

    /// Writes a shape as an object of its own: the discriminator, then the
    /// payload.
    fn encode(&self) -> (r: Json) {
        Json::object(self.members())
    }
}

} // verus!
