//! Images, and the properties that a catalog stores for each in the object
//! notation.
use vstd::prelude::*;

use crate::catalog::CatalogVersion;
use crate::content::text_model;
use crate::fromdb::{bool_col, col_error, get_bool, get_int, get_text, int_col, text_col, Field, FromDb};
use crate::lrobject::{LrId, LrObject};
use crate::lron::{document, number_of, objects_model, Number, NumberModel, Object, ObjectModel, Value, ValueModel};
use crate::text::str_eq;
use crate::{AspectRatio, Error, Point, Rect};

verus! {

/// Properties of an image: where the loupe is focused, and its crop.
#[derive(Debug, PartialEq)]
pub struct Properties {
    /// Where the loupe is focused.
    pub loupe_focus: Option<Point>,
    /// Aspect ratio of the crop.
    pub crop_aspect_ratio: Option<AspectRatio>,
    /// Default crop.
    pub default_crop: Option<Rect>,
}

/// Mathematical model of `Properties`: the point as `(x, y)`, the crop as
/// `(top, bottom, left, right)`.
pub struct PropertiesModel {
    pub loupe_focus: Option<(NumberModel, NumberModel)>,
    pub crop_aspect_ratio: Option<AspectRatio>,
    pub default_crop: Option<(NumberModel, NumberModel, NumberModel, NumberModel)>,
}

impl View for Properties {
    type V = PropertiesModel;

    open spec fn view(&self) -> PropertiesModel {
        PropertiesModel {
            loupe_focus: match self.loupe_focus {
                Some(p) => Some((p.x@, p.y@)),
                None => None,
            },
            crop_aspect_ratio: self.crop_aspect_ratio,
            default_crop: match self.default_crop {
                Some(c) => Some((c.top@, c.bottom@, c.left@, c.right@)),
                None => None,
            },
        }
    }
}

pub open spec fn no_properties() -> PropertiesModel {
    PropertiesModel { loupe_focus: None, crop_aspect_ratio: None, default_crop: None }
}

/// The value of the last pair of `objs` whose key is `key`.
pub open spec fn last_value(objs: Seq<ObjectModel>, key: Seq<char>) -> Option<ValueModel>
    decreases objs.len(),
{
    if objs.len() == 0 {
        None
    } else if objs.last() matches ObjectModel::Pair(k, v) && k == key {
        Some(objs.last()->Pair_1)
    } else {
        last_value(objs.drop_last(), key)
    }
}

/// The integer of the last pair of `objs` whose key is `key` and whose value
/// is an integer.
pub open spec fn last_int(objs: Seq<ObjectModel>, key: Seq<char>) -> Option<i32>
    decreases objs.len(),
{
    if objs.len() == 0 {
        None
    } else if objs.last() matches ObjectModel::Pair(k, ValueModel::Int(n)) && k == key {
        Some(objs.last()->Pair_1->Int_0)
    } else {
        last_int(objs.drop_last(), key)
    }
}

/// The dictionary of the last pair of `objs` whose key is `key` and whose
/// value is a dictionary.
pub open spec fn last_dict(objs: Seq<ObjectModel>, key: Seq<char>) -> Option<Seq<ObjectModel>>
    decreases objs.len(),
{
    if objs.len() == 0 {
        None
    } else if objs.last() matches ObjectModel::Pair(k, ValueModel::Dict(d)) && k == key {
        Some(objs.last()->Pair_1->Dict_0)
    } else {
        last_dict(objs.drop_last(), key)
    }
}

/// The number that the last pair of `objs` with key `key` holds.
pub open spec fn last_number(objs: Seq<ObjectModel>, key: Seq<char>) -> Option<NumberModel> {
    match last_value(objs, key) {
        Some(v) => number_of(v),
        None => None,
    }
}

/// A point `{ _ag_className = "AgPoint", x = .., y = .. }`: all three are
/// needed, `x` and `y` as numbers.
pub open spec fn point_of(objs: Seq<ObjectModel>) -> Option<(NumberModel, NumberModel)> {
    if last_value(objs, "_ag_className"@) == Some(ValueModel::Str("AgPoint"@)) && last_number(
        objs,
        "x"@,
    ) is Some && last_number(objs, "y"@) is Some {
        Some((last_number(objs, "x"@).unwrap(), last_number(objs, "y"@).unwrap()))
    } else {
        None
    }
}

/// The properties that the pairs of a dictionary define. Each composite
/// field needs all its parts, else it is absent.
pub open spec fn properties_of(objs: Seq<ObjectModel>) -> PropertiesModel {
    PropertiesModel {
        loupe_focus: match last_dict(objs, "loupeFocusPoint"@) {
            Some(d) => point_of(d),
            None => None,
        },
        crop_aspect_ratio: match (last_int(objs, "cropAspectH"@), last_int(objs, "cropAspectW"@)) {
            (Some(h), Some(w)) => Some(AspectRatio { width: w, height: h }),
            _ => None,
        },
        default_crop: match (
            last_number(objs, "defaultCropTop"@),
            last_number(objs, "defaultCropBottom"@),
            last_number(objs, "defaultCropLeft"@),
            last_number(objs, "defaultCropRight"@),
        ) {
            (Some(t), Some(b), Some(l), Some(r)) => Some((t, b, l, r)),
            _ => None,
        },
    }
}

/// The properties of a document `properties = { ... }`; none for any other.
pub open spec fn properties_from(o: ObjectModel) -> PropertiesModel {
    if o matches ObjectModel::Pair(k, ValueModel::Dict(d)) && k == "properties"@ {
        properties_of(o->Pair_1->Dict_0)
    } else {
        no_properties()
    }
}

pub open spec fn number_model(n: Option<Number>) -> Option<NumberModel> {
    match n {
        Some(m) => Some(m@),
        None => None,
    }
}

/// Whether `o` is a pair with the key `key`.
pub open spec fn is_pair_of(o: ObjectModel, key: Seq<char>) -> bool {
    o matches ObjectModel::Pair(k, _) && k == key
}

/// Whether some pair of `objs` has the key `key`.
pub open spec fn has_key(objs: Seq<ObjectModel>, key: Seq<char>) -> bool {
    exists|i: int| 0 <= i < objs.len() && is_pair_of(#[trigger] objs[i], key)
}

proof fn lemma_no_key_no_value(objs: Seq<ObjectModel>, key: Seq<char>)
    requires
        !has_key(objs, key),
    ensures
        last_value(objs, key) is None,
        last_int(objs, key) is None,
    decreases objs.len(),
{
    if objs.len() > 0 {
        assert(!has_key(objs.drop_last(), key)) by {
            if has_key(objs.drop_last(), key) {
                let i = choose|i: int|
                    0 <= i < objs.drop_last().len() && is_pair_of(#[trigger] objs.drop_last()[i], key);
                assert(objs[i] == objs.drop_last()[i]);
            }
        }
        assert(!is_pair_of(objs[objs.len() - 1], key));
        lemma_no_key_no_value(objs.drop_last(), key);
    }
}

/// A default crop needs all four of its bounds: a dictionary without one of
/// them defines no crop.
pub proof fn lemma_crop_needs_all_bounds(objs: Seq<ObjectModel>, key: Seq<char>)
    requires
        key == "defaultCropTop"@ || key == "defaultCropBottom"@ || key == "defaultCropLeft"@
            || key == "defaultCropRight"@,
        !has_key(objs, key),
    ensures
        properties_of(objs).default_crop is None,
{
    lemma_no_key_no_value(objs, key);
}

/// An aspect ratio needs both sides: a dictionary without one of them
/// defines none.
pub proof fn lemma_aspect_needs_both_sides(objs: Seq<ObjectModel>, key: Seq<char>)
    requires
        key == "cropAspectH"@ || key == "cropAspectW"@,
        !has_key(objs, key),
    ensures
        properties_of(objs).crop_aspect_ratio is None,
{
    lemma_no_key_no_value(objs, key);
}

proof fn lemma_keys_distinct()
    ensures
        "_ag_className"@ != "x"@,
        "_ag_className"@ != "y"@,
        "x"@ != "y"@,
        "loupeFocusPoint"@ != "cropAspectH"@,
        "loupeFocusPoint"@ != "cropAspectW"@,
        "cropAspectH"@ != "cropAspectW"@,
        "defaultCropTop"@ != "loupeFocusPoint"@,
        "defaultCropTop"@ != "cropAspectH"@,
        "defaultCropTop"@ != "cropAspectW"@,
        "defaultCropBottom"@ != "loupeFocusPoint"@,
        "defaultCropBottom"@ != "cropAspectH"@,
        "defaultCropBottom"@ != "cropAspectW"@,
        "defaultCropLeft"@ != "loupeFocusPoint"@,
        "defaultCropLeft"@ != "cropAspectH"@,
        "defaultCropLeft"@ != "cropAspectW"@,
        "defaultCropRight"@ != "loupeFocusPoint"@,
        "defaultCropRight"@ != "cropAspectH"@,
        "defaultCropRight"@ != "cropAspectW"@,
        "defaultCropTop"@ != "defaultCropBottom"@,
        "defaultCropTop"@ != "defaultCropLeft"@,
        "defaultCropTop"@ != "defaultCropRight"@,
        "defaultCropBottom"@ != "defaultCropLeft"@,
        "defaultCropBottom"@ != "defaultCropRight"@,
        "defaultCropLeft"@ != "defaultCropRight"@,
{
    reveal_strlit("_ag_className");
    reveal_strlit("x");
    reveal_strlit("y");
    reveal_strlit("loupeFocusPoint");
    reveal_strlit("cropAspectH");
    reveal_strlit("cropAspectW");
    reveal_strlit("defaultCropTop");
    reveal_strlit("defaultCropBottom");
    reveal_strlit("defaultCropLeft");
    reveal_strlit("defaultCropRight");
    assert("_ag_className"@[0] != "x"@[0]);
    assert("_ag_className"@[0] != "y"@[0]);
    assert("x"@[0] != "y"@[0]);
    assert("loupeFocusPoint"@[0] != "cropAspectH"@[0]);
    assert("loupeFocusPoint"@[0] != "cropAspectW"@[0]);
    assert("cropAspectH"@[10] != "cropAspectW"@[10]);
    assert("defaultCropTop"@[0] != "loupeFocusPoint"@[0]);
    assert("defaultCropTop"@[0] != "cropAspectH"@[0]);
    assert("defaultCropBottom"@[0] != "loupeFocusPoint"@[0]);
    assert("defaultCropBottom"@[0] != "cropAspectH"@[0]);
    assert("defaultCropLeft"@[0] != "loupeFocusPoint"@[0]);
    assert("defaultCropLeft"@[0] != "cropAspectH"@[0]);
    assert("defaultCropRight"@[0] != "loupeFocusPoint"@[0]);
    assert("defaultCropRight"@[0] != "cropAspectH"@[0]);
    assert("defaultCropTop"@[11] != "defaultCropBottom"@[11]);
    assert("defaultCropTop"@[11] != "defaultCropLeft"@[11]);
    assert("defaultCropTop"@[11] != "defaultCropRight"@[11]);
    assert("defaultCropBottom"@[11] != "defaultCropLeft"@[11]);
    assert("defaultCropBottom"@[11] != "defaultCropRight"@[11]);
    assert("defaultCropLeft"@[11] != "defaultCropRight"@[11]);
}

proof fn lemma_prefix_step(v: Seq<Object>, k: int)
    requires
        0 <= k < v.len(),
    ensures
        objects_model(v.take(k + 1)).drop_last() == objects_model(v.take(k)),
        objects_model(v.take(k + 1)).last() == v[k]@,
        objects_model(v.take(k + 1)).len() == k + 1,
{
    assert(objects_model(v.take(k + 1)).drop_last() =~= objects_model(v.take(k)));
}

impl Properties {
    /// The point that the pairs of `value` define, if they define one.
    fn loupe_focus(value: &Vec<Object>) -> (r: Option<Point>)
        ensures
            match point_of(objects_model(value@)) {
                Some((x, y)) => r matches Some(p) && p.x@ == x && p.y@ == y,
                None => r is None,
            },
    {
        let mut x: Option<Number> = None;
        let mut y: Option<Number> = None;
        let mut is_point = false;
        let mut k: usize = 0;
        while k < value.len()
            invariant
                k <= value.len(),
                is_point == (last_value(objects_model(value@.take(k as int)), "_ag_className"@)
                    == Some(ValueModel::Str("AgPoint"@))),
                number_model(x) == last_number(objects_model(value@.take(k as int)), "x"@),
                number_model(y) == last_number(objects_model(value@.take(k as int)), "y"@),
            decreases value.len() - k,
        {
            proof {
                lemma_prefix_step(value@, k as int);
                lemma_keys_distinct();
            }
            if let Object::Pair(p) = &value[k] {
                assert(objects_model(value@.take(k + 1)).last() == ObjectModel::Pair(p.key@, p.value@));
                let key = p.key.as_str();
                if str_eq(key, "_ag_className") {
                    is_point = match &p.value {
                        Value::Str(s) => str_eq(s.as_str(), "AgPoint"),
                        _ => false,
                    };
                } else if str_eq(key, "y") {
                    y = p.value.to_number();
                } else if str_eq(key, "x") {
                    x = p.value.to_number();
                }
            }
            k += 1;
        }
        proof {
            assert(value@.take(value.len() as int) =~= value@);
        }
        if is_point {
            match (x, y) {
                (Some(x), Some(y)) => Some(Point { x, y }),
                _ => None,
            }
        } else {
            None
        }
    }

    /// The properties that the pairs of `value` define.
    fn properties(value: &Vec<Object>) -> (r: Properties)
        ensures
            r@ == properties_of(objects_model(value@)),
    {
        let mut loupe_focus: Option<Point> = None;
        let mut crop_aspect_h: Option<i32> = None;
        let mut crop_aspect_w: Option<i32> = None;
        let mut top: Option<Number> = None;
        let mut bottom: Option<Number> = None;
        let mut left: Option<Number> = None;
        let mut right: Option<Number> = None;
        let mut k: usize = 0;
        while k < value.len()
            invariant
                k <= value.len(),
                match last_dict(objects_model(value@.take(k as int)), "loupeFocusPoint"@) {
                    Some(d) => match point_of(d) {
                        Some((px, py)) => loupe_focus matches Some(p) && p.x@ == px && p.y@ == py,
                        None => loupe_focus is None,
                    },
                    None => loupe_focus is None,
                },
                crop_aspect_h == last_int(objects_model(value@.take(k as int)), "cropAspectH"@),
                crop_aspect_w == last_int(objects_model(value@.take(k as int)), "cropAspectW"@),
                number_model(top) == last_number(objects_model(value@.take(k as int)), "defaultCropTop"@),
                number_model(bottom) == last_number(
                    objects_model(value@.take(k as int)),
                    "defaultCropBottom"@,
                ),
                number_model(left) == last_number(objects_model(value@.take(k as int)), "defaultCropLeft"@),
                number_model(right) == last_number(
                    objects_model(value@.take(k as int)),
                    "defaultCropRight"@,
                ),
            decreases value.len() - k,
        {
            proof {
                lemma_prefix_step(value@, k as int);
                lemma_keys_distinct();
            }
            if let Object::Pair(p) = &value[k] {
                assert(objects_model(value@.take(k + 1)).last() == ObjectModel::Pair(p.key@, p.value@));
                let key = p.key.as_str();
                if str_eq(key, "loupeFocusPoint") {
                    if let Value::Dict(v) = &p.value {
                        proof {
                            crate::lron::lemma_dict_model(*v);
                        }
                        loupe_focus = Self::loupe_focus(v);
                    }
                } else if str_eq(key, "cropAspectH") {
                    if let Value::Int(i) = &p.value {
                        crop_aspect_h = Some(*i);
                    }
                } else if str_eq(key, "cropAspectW") {
                    if let Value::Int(i) = &p.value {
                        crop_aspect_w = Some(*i);
                    }
                } else if str_eq(key, "defaultCropBottom") {
                    bottom = p.value.to_number();
                } else if str_eq(key, "defaultCropLeft") {
                    left = p.value.to_number();
                } else if str_eq(key, "defaultCropRight") {
                    right = p.value.to_number();
                } else if str_eq(key, "defaultCropTop") {
                    top = p.value.to_number();
                }
            }
            k += 1;
        }
        proof {
            assert(value@.take(value.len() as int) =~= value@);
        }
        let crop_aspect_ratio = match (crop_aspect_h, crop_aspect_w) {
            (Some(h), Some(w)) => Some(AspectRatio { width: w, height: h }),
            _ => None,
        };
        let default_crop = match (top, bottom, left, right) {
            (Some(top), Some(bottom), Some(left), Some(right)) => Some(Rect { top, bottom, left, right }),
            _ => None,
        };
        Properties { loupe_focus, crop_aspect_ratio, default_crop }
    }

    /// The properties of a parsed document `properties = { ... }`; empty
    /// properties for any other object.
    pub fn from(object: Object) -> (r: Properties)
        ensures
            r@ == properties_from(object@),
    {
        if let Object::Pair(p) = &object {
            assert(object@ == ObjectModel::Pair(p.key@, p.value@));
            if str_eq(p.key.as_str(), "properties") {
                if let Value::Dict(d) = &p.value {
                    proof {
                        crate::lron::lemma_dict_model(*d);
                    }
                    return Self::properties(d);
                }
                assert(!(p.value@ is Dict));
            }
        }
        Properties { loupe_focus: None, crop_aspect_ratio: None, default_crop: None }
    }
}

/// An image of the catalog, backed by a `LibraryFile`.
#[derive(Debug)]
pub struct Image {
    /// Local id.
    pub id: LrId,
    /// Global UUID.
    pub uuid: String,
    /// If this is a copy, id of the `Image` it is a copy of.
    pub master_image: Option<LrId>,
    /// Name of the copy.
    pub copy_name: Option<String>,
    /// Star rating.
    pub rating: Option<i64>,
    /// Id of the backing `LibraryFile`.
    pub root_file: LrId,
    /// File format.
    pub file_format: String,
    /// Pick: -1, 0 or 1.
    pub pick: i64,
    /// Orientation code; `exif_orientation` gives its Exif value.
    pub orientation: Option<String>,
    /// Capture date.
    pub capture_time: String,
    /// XMP block as stored in the database; empty if there is none.
    pub xmp: String,
    /// Whether the XMP packet is embedded in the file rather than in a
    /// sidecar.
    pub xmp_embedded: bool,
    /// Whether the external XMP differs from the database.
    pub xmp_external_dirty: bool,
    /// Properties from the image properties table.
    pub properties: Option<Properties>,
}

/// The Exif orientation of an orientation code: 0 when there is none, -1
/// for a code that is not known.
pub open spec fn exif_of(orientation: Option<Seq<char>>) -> i32 {
    match orientation {
        None => 0,
        Some(code) => if code == "AB"@ {
            1
        } else if code == "DA"@ {
            8
        } else if code == "BC"@ {
            6
        } else if code == "CD"@ {
            3
        } else {
            -1i32
        },
    }
}

impl Image {
    /// The Exif value of the orientation: 0 if there is none, -1 if the
    /// code is unknown.
    pub fn exif_orientation(&self) -> (r: i32)
        ensures
            r == exif_of(text_model(self.orientation)),
    {
        match &self.orientation {
            None => 0,
            Some(code) => {
                let c = code.as_str();
                if str_eq(c, "AB") {
                    1
                } else if str_eq(c, "DA") {
                    8
                } else if str_eq(c, "BC") {
                    6
                } else if str_eq(c, "CD") {
                    3
                } else {
                    -1
                }
            },
        }
    }
}

impl LrObject for Image {
    open spec fn spec_id(&self) -> LrId {
        self.id
    }

    open spec fn spec_uuid(&self) -> Seq<char> {
        self.uuid@
    }

    fn id(&self) -> LrId {
        self.id
    }

    fn uuid(&self) -> &str {
        self.uuid.as_str()
    }
}

/// The properties that the text of the properties column gives: those of
/// the document it holds, nothing if it holds no document.
pub open spec fn properties_column(row: Seq<Field>, p: Option<Properties>) -> bool {
    match text_col(row, 13) {
        Some(t) => match document(t) {
            Some(o) => p matches Some(q) && q@ == properties_from(o),
            None => p is None,
        },
        None => p is None,
    }
}

impl FromDb for Image {
    /// Columns, in the order of `columns`: id, uuid, master image, rating,
    /// root file, file format, pick, orientation, capture time, copy name,
    /// xmp, embedded flag, external dirty flag, properties text. Master
    /// image, rating, orientation, copy name and properties may be absent;
    /// the others are required.
    open spec fn decodes(version: CatalogVersion, row: Seq<Field>, r: Result<Image, Error>) -> bool {
        if int_col(row, 0) is None {
            r == Err::<Image, Error>(col_error(row, 0))
        } else if text_col(row, 1) is None {
            r == Err::<Image, Error>(col_error(row, 1))
        } else if int_col(row, 4) is None {
            r == Err::<Image, Error>(col_error(row, 4))
        } else if text_col(row, 5) is None {
            r == Err::<Image, Error>(col_error(row, 5))
        } else if int_col(row, 6) is None {
            r == Err::<Image, Error>(col_error(row, 6))
        } else if text_col(row, 8) is None {
            r == Err::<Image, Error>(col_error(row, 8))
        } else if text_col(row, 10) is None {
            r == Err::<Image, Error>(col_error(row, 10))
        } else if bool_col(row, 11) is None {
            r == Err::<Image, Error>(col_error(row, 11))
        } else if bool_col(row, 12) is None {
            r == Err::<Image, Error>(col_error(row, 12))
        } else {
            r matches Ok(img) && img.id == int_col(row, 0).unwrap() && img.uuid@ == text_col(
                row,
                1,
            ).unwrap() && img.master_image == int_col(row, 2) && img.rating == int_col(row, 3)
                && img.root_file == int_col(row, 4).unwrap() && img.file_format@ == text_col(
                row,
                5,
            ).unwrap() && img.pick == int_col(row, 6).unwrap() && text_model(img.orientation)
                == text_col(row, 7) && img.capture_time@ == text_col(row, 8).unwrap() && text_model(
                img.copy_name,
            ) == text_col(row, 9) && img.xmp@ == text_col(row, 10).unwrap() && img.xmp_embedded
                == bool_col(row, 11).unwrap() && img.xmp_external_dirty == bool_col(row, 12).unwrap()
                && properties_column(row, img.properties)
        }
    }

    open spec fn accepts(version: CatalogVersion, row: Seq<Field>) -> bool {
        &&& int_col(row, 0) is Some
        &&& text_col(row, 1) is Some
        &&& int_col(row, 4) is Some
        &&& text_col(row, 5) is Some
        &&& int_col(row, 6) is Some
        &&& text_col(row, 8) is Some
        &&& text_col(row, 10) is Some
        &&& bool_col(row, 11) is Some
        &&& bool_col(row, 12) is Some
    }

    open spec fn tables(version: CatalogVersion) -> Seq<char> {
        "Adobe_images as img,Adobe_AdditionalMetadata as meta,Adobe_imageProperties as props"@
    }

    open spec fn columns(version: CatalogVersion) -> Seq<char> {
        "img.id_local,img.id_global,img.masterImage,img.rating,img.rootFile,img.fileFormat,cast(img.pick as integer) as pick,img.orientation,img.captureTime,img.copyName,meta.xmp,meta.embeddedXmp,meta.externalXmpIsDirty,props.propertiesString"@
    }

    open spec fn join_where(version: CatalogVersion) -> Seq<char> {
        "meta.image = img.id_local and props.image = img.id_local"@
    }

    fn read_from(version: CatalogVersion, row: &Vec<Field>) -> (r: Result<Image, Error>) {
        let properties = match get_text(row, 13) {
            Ok(t) => match Object::from_string(t.as_str()) {
                Ok(o) => Some(Properties::from(o)),
                Err(_) => None,
            },
            Err(_) => None,
        };
        let id = match get_int(row, 0) {
            Ok(n) => n,
            Err(e) => return Err(e),
        };
        let uuid = match get_text(row, 1) {
            Ok(t) => t,
            Err(e) => return Err(e),
        };
        let master_image = get_int(row, 2).ok();
        let rating = get_int(row, 3).ok();
        let root_file = match get_int(row, 4) {
            Ok(n) => n,
            Err(e) => return Err(e),
        };
        let file_format = match get_text(row, 5) {
            Ok(t) => t,
            Err(e) => return Err(e),
        };
        let pick = match get_int(row, 6) {
            Ok(n) => n,
            Err(e) => return Err(e),
        };
        let orientation = get_text(row, 7).ok();
        let capture_time = match get_text(row, 8) {
            Ok(t) => t,
            Err(e) => return Err(e),
        };
        let copy_name = get_text(row, 9).ok();
        let xmp = match get_text(row, 10) {
            Ok(t) => t,
            Err(e) => return Err(e),
        };
        let xmp_embedded = match get_bool(row, 11) {
            Ok(b) => b,
            Err(e) => return Err(e),
        };
        let xmp_external_dirty = match get_bool(row, 12) {
            Ok(b) => b,
            Err(e) => return Err(e),
        };
        Ok(
            Image {
                id,
                uuid,
                master_image,
                copy_name,
                rating,
                root_file,
                file_format,
                pick,
                orientation,
                capture_time,
                xmp,
                xmp_embedded,
                xmp_external_dirty,
                properties,
            },
        )
    }

    fn read_db_tables(version: CatalogVersion) -> &'static str {
        "Adobe_images as img,Adobe_AdditionalMetadata as meta,Adobe_imageProperties as props"
    }

    fn read_db_columns(version: CatalogVersion) -> &'static str {
        "img.id_local,img.id_global,img.masterImage,img.rating,img.rootFile,img.fileFormat,cast(img.pick as integer) as pick,img.orientation,img.captureTime,img.copyName,meta.xmp,meta.embeddedXmp,meta.externalXmpIsDirty,props.propertiesString"
    }

    fn read_join_where(version: CatalogVersion) -> &'static str {
        "meta.image = img.id_local and props.image = img.id_local"
    }
}

} // verus!
