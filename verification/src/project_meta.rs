//! The taxonomy of a project: its classes and its tags. It is read as a
//! document of its own and not held against the annotations.

use crate::dataset::has_name;
use crate::error::SchemaError;
use crate::geometry::Shape;
use crate::json::{optional_as, required_as, Json, JsonView};
use crate::text::same_text;
use crate::wire::{
    decode_member, decode_opt_member, encode_opt, reader, write_opt, Decode, Encode,
};
use hex_color::HexColor;
use std::collections::HashMap;
use vstd::prelude::*;
use vstd::utf8::is_ascii_chars;

verus! {

/// The ids that an export gives to the keys of tags, objects, figures and
/// videos.
#[derive(Default, Debug, Clone, PartialEq, Eq)]
pub struct KeyIdMap {
    pub tags: HashMap<String, usize>,
    pub objects: HashMap<String, usize>,
    pub figures: HashMap<String, usize>,
    pub videos: HashMap<String, usize>,
}

/// A colour by its red, green and blue parts.
#[derive(Debug, Clone, Copy, PartialEq, Eq, Structural)]
pub struct Rgb {
    pub red: u8,
    pub green: u8,
    pub blue: u8,
}

impl DeepView for Rgb {
    type V = Rgb;

    open spec fn deep_view(&self) -> Rgb {
        *self
    }
}

/// Why `hex_color` refuses a text.
#[verifier::external_type_specification]
#[verifier::external_body]
pub struct ExParseHexColorError(hex_color::ParseHexColorError);

/// The red, green and blue parts that `hex_color` reads from a text as a
/// hexadecimal triplet, or `None` where it refuses the text.
pub uninterp spec fn hex_triplet(text: Seq<char>) -> Option<(u8, u8, u8)>;

/// `HexColor::parse_rgb`. The contract names the three parts and says that
/// the call fails exactly where `hex_color` refuses the text.
#[verifier::external_body]
fn parse_hex_triplet(text: &str) -> (r: Result<(u8, u8, u8), hex_color::ParseHexColorError>)
    ensures
        match r {
            Ok(parts) => hex_triplet(text@) == Some(parts),
            Err(_) => hex_triplet(text@) is None,
        },
{
    match HexColor::parse_rgb(text) {
        Ok(color) => Ok((color.r, color.g, color.b)),
        Err(error) => Err(error),
    }
}

/// The upper-case hexadecimal digit of a number below sixteen.
pub open spec fn hex_digit(n: int) -> char {
    if n < 10 {
        (n + 48) as char
    } else {
        (n + 55) as char
    }
}

/// A colour as text: a hash, then two upper-case hexadecimal digits for
/// each of red, green and blue.
pub open spec fn hex_text(red: u8, green: u8, blue: u8) -> Seq<char> {
    seq![
        '#',
        hex_digit(red as int / 16),
        hex_digit(red as int % 16),
        hex_digit(green as int / 16),
        hex_digit(green as int % 16),
        hex_digit(blue as int / 16),
        hex_digit(blue as int % 16),
    ]
}

/// `HexColor::rgb`, shown through `HexColor::display_rgb`. The contract
/// states the text, a hash and two upper-case digits for each part, and
/// claims that `HexColor::parse_rgb` reads the three parts back from it.
#[verifier::external_body]
fn write_hex_triplet(red: u8, green: u8, blue: u8) -> (r: String)
    ensures
        r@ == hex_text(red, green, blue),
        hex_triplet(r@) == Some((red, green, blue)),
{
    HexColor::rgb(red, green, blue).display_rgb().to_string()
}

/// The colour that the outcome of reading a hexadecimal triplet stands
/// for.
pub fn color_of(parts: Result<(u8, u8, u8), hex_color::ParseHexColorError>) -> (r: Result<
    Rgb,
    SchemaError,
>)
    ensures
        match parts {
            Ok(p) => r == Ok::<Rgb, SchemaError>(Rgb { red: p.0, green: p.1, blue: p.2 }),
            Err(_) => r == Err::<Rgb, SchemaError>(SchemaError::InvalidColor),
        },
{
    match parts {
        Ok(p) => Ok(Rgb { red: p.0, green: p.1, blue: p.2 }),
        Err(_) => Err(SchemaError::InvalidColor),
    }
}

impl Decode for Rgb {
    open spec fn read(j: JsonView) -> Result<Rgb, SchemaError> {
        match j {
            JsonView::Text(text) => if !is_ascii_chars(text) {
                Err(SchemaError::InvalidColor)
            } else {
                match hex_triplet(text) {
                    Some(p) => Ok(Rgb { red: p.0, green: p.1, blue: p.2 }),
                    None => Err(SchemaError::InvalidColor),
                }
            },
            _ => Err(SchemaError::InvalidType),
        }
    }

    /// Reads a colour from a string that holds a hexadecimal triplet. Text
    /// that is not ASCII is refused before it is looked at any further.
    fn decode(j: &Json) -> (r: Result<Rgb, SchemaError>) {
        match j {
            Json::Text(text) => {
                if !text.as_str().is_ascii() {
                    return Err(SchemaError::InvalidColor);
                }
                color_of(parse_hex_triplet(text.as_str()))
            },
            _ => Err(SchemaError::InvalidType),
        }
    }
}

impl Rgb {
    /// The colour as a hash and six hexadecimal digits. Reading the text
    /// gives the colour back.
    pub fn to_hex(&self) -> (r: String)
        ensures
            r@ == hex_text(self.red, self.green, self.blue),
            Rgb::read(JsonView::Text(r@)) == Ok::<Rgb, SchemaError>(*self),
    {
        write_hex_triplet(self.red, self.green, self.blue)
    }
}

impl Encode for Rgb {
    open spec fn write(c: Rgb) -> JsonView {
        JsonView::Text(hex_text(c.red, c.green, c.blue))
    }

    /// Writes a colour as a string that holds a hexadecimal triplet.
    fn encode(&self) -> (r: Json) {
        Json::Text(self.to_hex())
    }
}

/// Writes the colour of a class or of a name of tags: its hexadecimal
/// triplet, or `null` where it has none.
pub fn serialize(color: &Option<Rgb>) -> (r: Json)
    ensures
        r.deep_view() == write_opt::<Rgb>(*color),
{
    encode_opt::<Rgb>(color)
}

/// Reads the colour of a class or of a name of tags: `null` is no colour, a
/// string has to hold a hexadecimal triplet.
pub fn deserialize(j: &Json) -> (r: Result<Option<Rgb>, SchemaError>)
    ensures
        r == match j.deep_view() {
            JsonView::Null => Ok::<Option<Rgb>, SchemaError>(None),
            other => match Rgb::read(other) {
                Ok(c) => Ok(Some(c)),
                Err(e) => Err(e),
            },
        },
{
    match j {
        Json::Null => Ok(None),
        _ => Ok(Some(Rgb::decode(j)?)),
    }
}

/// What kind of value the tags of a name take.
#[derive(Debug, Clone, Copy, PartialEq, Eq, Structural)]
pub enum ValueType {
    /// The tags take no value.
    Nothing,
    AnyNumber,
    OneOfString,
    AnyString,
}

/// The value type that a name on the wire selects.
pub open spec fn value_type_of_name(name: Seq<char>) -> Option<ValueType> {
    if name == "none"@ {
        Some(ValueType::Nothing)
    } else if name == "any_number"@ {
        Some(ValueType::AnyNumber)
    } else if name == "oneof_string"@ {
        Some(ValueType::OneOfString)
    } else if name == "any_string"@ {
        Some(ValueType::AnyString)
    } else {
        None
    }
}

impl DeepView for ValueType {
    type V = ValueType;

    open spec fn deep_view(&self) -> ValueType {
        *self
    }
}

impl Decode for ValueType {
    open spec fn read(j: JsonView) -> Result<ValueType, SchemaError> {
        match j {
            JsonView::Text(name) => match value_type_of_name(name) {
                Some(v) => Ok(v),
                None => Err(SchemaError::InvalidType),
            },
            _ => Err(SchemaError::InvalidType),
        }
    }

    /// Reads a value type from its name.
    fn decode(j: &Json) -> (r: Result<ValueType, SchemaError>) {
        match j {
            Json::Text(name) => {
                let name = name.as_str();
                if same_text(name, "none") {
                    Ok(ValueType::Nothing)
                } else if same_text(name, "any_number") {
                    Ok(ValueType::AnyNumber)
                } else if same_text(name, "oneof_string") {
                    Ok(ValueType::OneOfString)
                } else if same_text(name, "any_string") {
                    Ok(ValueType::AnyString)
                } else {
                    Err(SchemaError::InvalidType)
                }
            },
            _ => Err(SchemaError::InvalidType),
        }
    }
}

/// The settings of a class's geometry. None are known.
#[derive(Default, Debug, Clone, Copy, PartialEq, Eq, Structural)]
pub struct GeometryConfig {}

/// A class of objects: its title, the shape its objects are drawn with and
/// its colour.
#[derive(Debug, Clone, PartialEq, Eq)]
pub struct ClassMeta {
    pub title: String,
    pub shape: Shape,
    pub color: Option<Rgb>,
    pub geometry_config: GeometryConfig,
}

/// The model of a [`ClassMeta`].
pub struct ClassMetaView {
    pub title: Seq<char>,
    pub shape: Shape,
    pub color: Option<Rgb>,
}

impl DeepView for ClassMeta {
    type V = ClassMetaView;

    open spec fn deep_view(&self) -> ClassMetaView {
        ClassMetaView { title: self.title@, shape: self.shape, color: self.color }
    }
}

impl Decode for ClassMeta {
    open spec fn read(j: JsonView) -> Result<ClassMetaView, SchemaError> {
        let title = j.req_text("title"@);
        let shape = required_as(j.required("shape"@), reader::<Shape>());
        let color = optional_as(j.optional("color"@), reader::<Rgb>());
        if title is Err {
            Err(title->Err_0)
        } else if shape is Err {
            Err(shape->Err_0)
        } else if color is Err {
            Err(color->Err_0)
        } else {
            Ok(ClassMetaView { title: title->Ok_0, shape: shape->Ok_0, color: color->Ok_0 })
        }
    }

    /// Reads a class from `title`, `shape` and, where it is there, `color`.
    fn decode(j: &Json) -> (r: Result<ClassMeta, SchemaError>) {
        let title = j.req_text("title")?;
        let shape = decode_member::<Shape>(j, "shape")?;
        let color = decode_opt_member::<Rgb>(j, "color")?;
        Ok(ClassMeta { title, shape, color, geometry_config: GeometryConfig {  } })
    }
}

/// A name of tags: its colour, the kind of value its tags take and, for a
/// choice, the options, each once in the order they are read.
#[derive(Debug, Clone, PartialEq, Eq)]
pub struct TagMeta {
    pub name: String,
    pub color: Option<Rgb>,
    pub value_type: ValueType,
    pub values: Option<Vec<String>>,
}

/// The model of a [`TagMeta`].
pub struct TagMetaView {
    pub name: Seq<char>,
    pub color: Option<Rgb>,
    pub value_type: ValueType,
    pub values: Option<Seq<Seq<char>>>,
}

impl DeepView for TagMeta {
    type V = TagMetaView;

    open spec fn deep_view(&self) -> TagMetaView {
        TagMetaView {
            name: self.name@,
            color: self.color,
            value_type: self.value_type,
            values: self.values.deep_view(),
        }
    }
}

/// The first `n` of `items` in the order of their first occurrence, each
/// once.
pub open spec fn each_once(items: Seq<Seq<char>>, n: int) -> Seq<Seq<char>>
    decreases n,
{
    if n <= 0 {
        Seq::empty()
    } else {
        let before = each_once(items, n - 1);
        if before.contains(items[n - 1]) {
            before
        } else {
            before.push(items[n - 1])
        }
    }
}

/// The options of a choice, where they are given: the strings of an
/// array, each once.
pub open spec fn options_of(items: Result<Option<Seq<Seq<char>>>, SchemaError>) -> Result<
    Option<Seq<Seq<char>>>,
    SchemaError,
> {
    match items {
        Ok(Some(list)) => Ok(Some(each_once(list, list.len() as int))),
        Ok(None) => Ok(None),
        Err(e) => Err(e),
    }
}

/// Drops the later occurrences of each string.
pub fn without_repeats(items: Vec<String>) -> (r: Vec<String>)
    ensures
        r.deep_view() == each_once(items.deep_view(), items.len() as int),
{
    let mut out: Vec<String> = Vec::new();
    let mut i: usize = 0;
    assert(out.deep_view() =~= Seq::empty());
    while i < items.len()
        invariant
            i <= items.len(),
            out.deep_view() == each_once(items.deep_view(), i as int),
        decreases items.len() - i,
    {
        assert(items.deep_view()[i as int] == items[i as int]@);
        if !has_name(&out, items[i].as_str()) {
            let ghost before = out.deep_view();
            out.push(items[i].clone());
            assert(out.deep_view() =~= before.push(items[i as int]@));
        }
        i += 1;
    }
    out
}

impl TagMeta {
    /// A name of tags that take any string, with no colour and no options.
    pub fn new_any_string(name: String) -> (r: TagMeta)
        ensures
            r.name == name,
            r.color is None,
            r.value_type == ValueType::AnyString,
            r.values is None,
    {
        TagMeta { name, color: None, value_type: ValueType::AnyString, values: None }
    }
}

impl Decode for TagMeta {
    open spec fn read(j: JsonView) -> Result<TagMetaView, SchemaError> {
        let name = j.req_text("name"@);
        let color = optional_as(j.optional("color"@), reader::<Rgb>());
        let value_type = required_as(j.required("value_type"@), reader::<ValueType>());
        let values = options_of(optional_as(j.optional("values"@), reader::<Vec<String>>()));
        if name is Err {
            Err(name->Err_0)
        } else if color is Err {
            Err(color->Err_0)
        } else if value_type is Err {
            Err(value_type->Err_0)
        } else if values is Err {
            Err(values->Err_0)
        } else {
            Ok(
                TagMetaView {
                    name: name->Ok_0,
                    color: color->Ok_0,
                    value_type: value_type->Ok_0,
                    values: values->Ok_0,
                },
            )
        }
    }

    /// Reads a name of tags from `name`, `value_type` and, where they are
    /// there, `color` and `values`.
    fn decode(j: &Json) -> (r: Result<TagMeta, SchemaError>) {
        let name = j.req_text("name")?;
        let color = decode_opt_member::<Rgb>(j, "color")?;
        let value_type = decode_member::<ValueType>(j, "value_type")?;
        let values = match decode_opt_member::<Vec<String>>(j, "values")? {
            Some(list) => Some(without_repeats(list)),
            None => None,
        };
        Ok(TagMeta { name, color, value_type, values })
    }
}

/// The taxonomy of a project.
#[derive(Debug, Clone, PartialEq, Eq)]
pub struct ProjectMeta {
    pub classes: Vec<ClassMeta>,
    pub tags: Vec<TagMeta>,
}

/// The model of a [`ProjectMeta`].
pub struct ProjectMetaView {
    pub classes: Seq<ClassMetaView>,
    pub tags: Seq<TagMetaView>,
}

impl DeepView for ProjectMeta {
    type V = ProjectMetaView;

    open spec fn deep_view(&self) -> ProjectMetaView {
        ProjectMetaView { classes: self.classes.deep_view(), tags: self.tags.deep_view() }
    }
}

impl Decode for ProjectMeta {
    open spec fn read(j: JsonView) -> Result<ProjectMetaView, SchemaError> {
        let classes = required_as(j.required("classes"@), reader::<Vec<ClassMeta>>());
        let tags = required_as(j.required("tags"@), reader::<Vec<TagMeta>>());
        if classes is Err {
            Err(classes->Err_0)
        } else if tags is Err {
            Err(tags->Err_0)
        } else {
            Ok(ProjectMetaView { classes: classes->Ok_0, tags: tags->Ok_0 })
        }
    }

    /// Reads the taxonomy of a project from `classes` and `tags`.
    fn decode(j: &Json) -> (r: Result<ProjectMeta, SchemaError>) {
        let classes = decode_member::<Vec<ClassMeta>>(j, "classes")?;
        let tags = decode_member::<Vec<TagMeta>>(j, "tags")?;
        Ok(ProjectMeta { classes, tags })
    }
}

} // verus!
