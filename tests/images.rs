use lrcat::lron::Object;
use lrcat::{AspectRatio, Field, FromDb, Image, Number, Properties};
use lrcat::{CatalogVersion, Error, LrObject, SqlError};

fn as_f64(n: &Number) -> f64 {
    match n {
        Number::Int(i) => *i as f64,
        Number::Float(t) => t.parse::<f64>().unwrap(),
    }
}

fn blank_image() -> Image {
    Image {
        id: 1,
        uuid: String::new(),
        master_image: None,
        rating: None,
        root_file: 2,
        file_format: String::from("RAW"),
        pick: 0,
        orientation: None,
        capture_time: String::new(),
        copy_name: None,
        xmp: String::new(),
        xmp_embedded: false,
        xmp_external_dirty: false,
        properties: None,
    }
}

#[test]
fn test_exif_orientation() {
    let mut image = blank_image();

    assert_eq!(image.exif_orientation(), 0);
    image.orientation = Some(String::from("ZZ"));
    assert_eq!(image.exif_orientation(), -1);

    image.orientation = Some(String::from("AB"));
    assert_eq!(image.exif_orientation(), 1);
    image.orientation = Some(String::from("DA"));
    assert_eq!(image.exif_orientation(), 8);
    image.orientation = Some(String::from("BC"));
    assert_eq!(image.exif_orientation(), 6);
    image.orientation = Some(String::from("CD"));
    assert_eq!(image.exif_orientation(), 3);
}

const LRON1: &str = "properties = { \
	cropAspectH = 9, \
	cropAspectW = 16, \
	defaultCropBottom = 0.92105263157895, \
	defaultCropLeft = 0, \
	defaultCropRight = 1, \
	defaultCropTop = 0.078947368421053, \
	loupeFocusPoint = { \
		_ag_className = \"AgPoint\", \
		x = 0.6377015605549, \
		y = 0.70538265910057, \
	}, \
        }";

#[test]
fn test_properties_loading() {
    let object = Object::from_string(LRON1);

    assert!(object.is_ok());
    let object = object.unwrap();
    let properties = Properties::from(object);

    assert!(properties.loupe_focus.is_some());
    if let Some(ref loupe_focus) = properties.loupe_focus {
        assert_eq!(as_f64(&loupe_focus.x), 0.6377015605549);
        assert_eq!(as_f64(&loupe_focus.y), 0.70538265910057);
    }

    assert!(properties.crop_aspect_ratio.is_some());
    if let Some(ref ar) = properties.crop_aspect_ratio {
        assert_eq!(ar.height, 9);
        assert_eq!(ar.width, 16);
    }

    assert!(properties.default_crop.is_some());
    if let Some(ref crop) = properties.default_crop {
        assert_eq!(as_f64(&crop.top), 0.078947368421053);
        assert_eq!(as_f64(&crop.bottom), 0.92105263157895);
        assert_eq!(as_f64(&crop.left), 0.0);
        assert_eq!(as_f64(&crop.right), 1.0);
    }
}

#[test]
fn properties_missing_crop_bound() {
    let text = "properties = { cropAspectH = 9, cropAspectW = 16, defaultCropBottom = 0.9, \
                defaultCropLeft = 0, defaultCropTop = 0.1, }";
    let properties = Properties::from(Object::from_string(text).unwrap());
    assert!(properties.default_crop.is_none());
    assert_eq!(properties.crop_aspect_ratio, Some(AspectRatio { width: 16, height: 9 }));
    assert!(properties.loupe_focus.is_none());
}

#[test]
fn properties_need_point_class_and_integer_sides() {
    let text = "properties = { cropAspectH = 9.0, cropAspectW = 16, \
                loupeFocusPoint = { _ag_className = \"AgRect\", x = 1, y = 2 }, }";
    let properties = Properties::from(Object::from_string(text).unwrap());
    assert!(properties.crop_aspect_ratio.is_none());
    assert!(properties.loupe_focus.is_none());
}

#[test]
fn properties_of_other_documents_are_empty() {
    let properties = Properties::from(Object::from_string("other = { cropAspectH = 9, cropAspectW = 16 }").unwrap());
    assert_eq!(properties, Properties { loupe_focus: None, crop_aspect_ratio: None, default_crop: None });
}

fn image_row(properties: Field) -> Vec<Field> {
    vec![
        Field::Integer(10),
        Field::Text("uuid-10".to_owned()),
        Field::Null,
        Field::Integer(4),
        Field::Integer(20),
        Field::Text("RAW".to_owned()),
        Field::Integer(1),
        Field::Text("BC".to_owned()),
        Field::Text("2017-10-01".to_owned()),
        Field::Null,
        Field::Text(String::new()),
        Field::Integer(1),
        Field::Integer(0),
        properties,
    ]
}

#[test]
fn image_row_decoding() {
    let row = image_row(Field::Text(LRON1.to_owned()));
    let image = Image::read_from(CatalogVersion::Lr4, &row).unwrap();
    assert_eq!(image.id(), 10);
    assert_eq!(image.uuid(), "uuid-10");
    assert_eq!(image.master_image, None);
    assert_eq!(image.rating, Some(4));
    assert_eq!(image.root_file, 20);
    assert_eq!(image.file_format, "RAW");
    assert_eq!(image.pick, 1);
    assert_eq!(image.exif_orientation(), 6);
    assert_eq!(image.capture_time, "2017-10-01");
    assert_eq!(image.copy_name, None);
    assert!(image.xmp_embedded);
    assert!(!image.xmp_external_dirty);
    let properties = image.properties.unwrap();
    assert_eq!(properties.crop_aspect_ratio, Some(AspectRatio { width: 16, height: 9 }));

    let unparsable = Image::read_from(CatalogVersion::Lr4, &image_row(Field::Text("x".to_owned()))).unwrap();
    assert!(unparsable.properties.is_none());
}

#[test]
fn image_row_errors() {
    let mut row = image_row(Field::Null);
    row[4] = Field::Text("20".to_owned());
    assert_eq!(
        Image::read_from(CatalogVersion::Lr4, &row).unwrap_err(),
        Error::Sql(SqlError::InvalidColumnType(4))
    );
    let short = vec![Field::Integer(1), Field::Text("u".to_owned())];
    assert_eq!(
        Image::read_from(CatalogVersion::Lr4, &short).unwrap_err(),
        Error::Sql(SqlError::InvalidColumnIndex(4))
    );
}
