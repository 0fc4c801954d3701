//! Image rows, detail screen and form.
use vstd::prelude::*;
use crate::bytes::{bytes_text, format_bytes};
use crate::models::glance::Image;
use crate::text::{cat3, dec, lowercase_of, opt_or, opt_str_or, opt_view, str_eq, to_lower, u64_text};
use crate::ui::detail_view::{fields_view, kv, opt_kv, push_kv, push_opt_kv, push_section, section, sections_view, DetailData, DetailDataView, DetailField, DetailSection, FieldView, SectionView};
use crate::ui::form::{dropdown_spec, field_specs, text_spec, FieldDef};
use crate::ui::resource_list::{column, columns_view, push_column, ColumnAlign, ColumnDef, ColumnView, ColumnWidth, Row, RowStyleHint, RowView};

verus! {

/// Icon and style of a lower-cased image status.
pub open spec fn image_status_spec(lower: Seq<char>) -> (Seq<char>, RowStyleHint) {
    if lower == "active"@ {
        ("●"@, RowStyleHint::Active)
    } else if lower == "error"@ || lower == "killed"@ || lower == "deleted"@ {
        ("✗"@, RowStyleHint::Error)
    } else if lower == "saving"@ || lower == "queued"@ || lower == "importing"@ {
        ("◐"@, RowStyleHint::Warning)
    } else if lower == "deactivated"@ {
        ("○"@, RowStyleHint::Disabled)
    } else {
        ("?"@, RowStyleHint::Normal)
    }
}

/// Icon and style for an already lower-cased status.
pub fn image_status_for_lower(lower: &str) -> (r: (&'static str, RowStyleHint))
    ensures
        (r.0@, r.1) == image_status_spec(lower@),
{
    if str_eq(lower, "active") {
        ("●", RowStyleHint::Active)
    } else if str_eq(lower, "error") || str_eq(lower, "killed") || str_eq(lower, "deleted") {
        ("✗", RowStyleHint::Error)
    } else if str_eq(lower, "saving") || str_eq(lower, "queued") || str_eq(lower, "importing") {
        ("◐", RowStyleHint::Warning)
    } else if str_eq(lower, "deactivated") {
        ("○", RowStyleHint::Disabled)
    } else {
        ("?", RowStyleHint::Normal)
    }
}

/// Icon and style of an image status, compared case-insensitively.
pub fn image_status_display(status: &str) -> (r: (&'static str, RowStyleHint))
    ensures
        (r.0@, r.1) == image_status_spec(lowercase_of(status@)),
{
    let lower = to_lower(status);
    image_status_for_lower(lower.as_str())
}

/// The size of an image for display, or `-` when unknown.
pub open spec fn size_text(size: Option<u64>) -> Seq<char> {
    match size {
        Some(s) => bytes_text(s as nat),
        None => "-"@,
    }
}

/// The row of an image: name, status with icon, disk format, size,
/// visibility.
pub open spec fn image_row_spec(img: Image) -> RowView {
    let (icon, style) = image_status_spec(lowercase_of(img.status@));
    RowView {
        id: img.id@,
        cells: seq![
            img.name@,
            icon + " "@ + img.status@,
            opt_or(img.disk_format, "-"@),
            size_text(img.size),
            img.visibility@,
        ],
        style_hint: Some(style),
    }
}

/// The table row of an image.
pub fn image_to_row(image: &Image) -> (r: Row)
    ensures
        r@ == image_row_spec(*image),
{
    let (icon, style) = image_status_display(image.status.as_str());
    let size_str = match image.size {
        Some(s) => format_bytes(s),
        None => String::from_str("-"),
    };
    let r = Row {
        id: image.id.clone(),
        cells: vec![
            image.name.clone(),
            cat3(icon, " ", image.status.as_str()),
            opt_str_or(&image.disk_format, "-"),
            size_str,
            image.visibility.clone(),
        ],
        style_hint: Some(style),
    };
    proof {
        assert(r@.cells =~= image_row_spec(*image).cells);
    }
    r
}

/// The detail screen of an image: basic info (id, name, status, formats,
/// size and checksum when known) and properties (visibility, minimum disk
/// and RAM, creation time when known).
pub open spec fn image_detail_spec(img: Image) -> DetailDataView {
    let basic = seq![
        kv("ID"@, img.id@, None),
        kv("Name"@, img.name@, None),
        kv("Status"@, img.status@, Some(image_status_spec(lowercase_of(img.status@)).1)),
    ] + opt_kv("Disk Format"@, opt_view(img.disk_format)) + opt_kv(
        "Container Format"@,
        opt_view(img.container_format),
    ) + match img.size {
        Some(s) => seq![kv("Size"@, bytes_text(s as nat), None)],
        None => Seq::empty(),
    } + opt_kv("Checksum"@, opt_view(img.checksum));
    let props = seq![
        kv("Visibility"@, img.visibility@, None),
        kv("Min Disk"@, dec(img.min_disk as nat) + " GB"@, None),
        kv("Min RAM"@, dec(img.min_ram as nat) + " MB"@, None),
    ] + opt_kv("Created"@, opt_view(img.created_at));
    DetailDataView {
        title: "Image: "@ + img.name@,
        sections: seq![
            SectionView { name: "Basic Info"@, fields: basic },
            SectionView { name: "Properties"@, fields: props },
        ],
    }
}

/// The detail screen of an image.
pub fn image_detail_data(image: &Image) -> (r: DetailData)
    ensures
        r@ == image_detail_spec(*image),
{
    let mut basic: Vec<DetailField> = Vec::new();
    push_kv(&mut basic, "ID", image.id.clone(), None);
    push_kv(&mut basic, "Name", image.name.clone(), None);
    let (_, status_style) = image_status_display(image.status.as_str());
    push_kv(&mut basic, "Status", image.status.clone(), Some(status_style));
    push_opt_kv(&mut basic, "Disk Format", &image.disk_format);
    push_opt_kv(&mut basic, "Container Format", &image.container_format);
    let ghost before_size = fields_view(basic@);
    match image.size {
        Some(s) => push_kv(&mut basic, "Size", format_bytes(s), None),
        None => {},
    }
    proof {
        let extra = match image.size {
            Some(s) => seq![kv("Size"@, bytes_text(s as nat), None)],
            None => Seq::<FieldView>::empty(),
        };
        assert(fields_view(basic@) =~= before_size + extra);
    }
    push_opt_kv(&mut basic, "Checksum", &image.checksum);
    let mut props: Vec<DetailField> = Vec::new();
    push_kv(&mut props, "Visibility", image.visibility.clone(), None);
    let mut min_disk = u64_text(image.min_disk as u64);
    min_disk.append(" GB");
    push_kv(&mut props, "Min Disk", min_disk, None);
    let mut min_ram = u64_text(image.min_ram as u64);
    min_ram.append(" MB");
    push_kv(&mut props, "Min RAM", min_ram, None);
    push_opt_kv(&mut props, "Created", &image.created_at);
    let mut sections: Vec<DetailSection> = Vec::new();
    push_section(&mut sections, section("Basic Info", basic));
    push_section(&mut sections, section("Properties", props));
    let mut title = String::from_str("Image: ");
    title.append(image.name.as_str());
    let r = DetailData { title, sections };
    proof {
        let spec = image_detail_spec(*image);
        assert(spec.sections[0].fields =~= fields_view(basic@));
        assert(spec.sections[1].fields =~= fields_view(props@));
        assert(sections_view(r.sections@)[0] == spec.sections[0]);
        assert(sections_view(r.sections@)[1] == spec.sections[1]);
        assert(sections_view(r.sections@) =~= spec.sections);
    }
    r
}

/// The image form: required name, disk and container format dropdowns,
/// optional visibility, minimum disk and RAM.
pub fn image_create_defs() -> (r: Vec<FieldDef>)
    ensures
        field_specs(r@) == seq![
            text_spec("Name"@, true),
            dropdown_spec("Disk Format"@, seq!["qcow2"@, "raw"@, "vmdk"@, "vdi"@, "iso"@], true),
            dropdown_spec("Container Format"@, seq!["bare"@, "docker"@, "ova"@], true),
            dropdown_spec("Visibility"@, seq!["private"@, "public"@, "shared"@, "community"@], false),
            text_spec("Min Disk (GB)"@, false),
            text_spec("Min RAM (MB)"@, false),
        ],
{
    let disk = vec![
        String::from_str("qcow2"),
        String::from_str("raw"),
        String::from_str("vmdk"),
        String::from_str("vdi"),
        String::from_str("iso"),
    ];
    let container = vec![String::from_str("bare"), String::from_str("docker"), String::from_str("ova")];
    let visibility = vec![
        String::from_str("private"),
        String::from_str("public"),
        String::from_str("shared"),
        String::from_str("community"),
    ];
    proof {
        assert(crate::text::strs_view(disk@) =~= seq!["qcow2"@, "raw"@, "vmdk"@, "vdi"@, "iso"@]);
        assert(crate::text::strs_view(container@) =~= seq!["bare"@, "docker"@, "ova"@]);
        assert(crate::text::strs_view(visibility@) =~= seq!["private"@, "public"@, "shared"@, "community"@]);
    }
    let r = vec![
        FieldDef::text("Name", true),
        FieldDef::dropdown("Disk Format", disk, true),
        FieldDef::dropdown("Container Format", container, true),
        FieldDef::dropdown("Visibility", visibility, false),
        FieldDef::text("Min Disk (GB)", false),
        FieldDef::text("Min RAM (MB)", false),
    ];
    proof {
        assert(field_specs(r@) =~= seq![
            text_spec("Name"@, true),
            dropdown_spec("Disk Format"@, seq!["qcow2"@, "raw"@, "vmdk"@, "vdi"@, "iso"@], true),
            dropdown_spec("Container Format"@, seq!["bare"@, "docker"@, "ova"@], true),
            dropdown_spec("Visibility"@, seq!["private"@, "public"@, "shared"@, "community"@], false),
            text_spec("Min Disk (GB)"@, false),
            text_spec("Min RAM (MB)"@, false),
        ]);
    }
    r
}

/// The image table's columns.
pub open spec fn image_columns_spec() -> Seq<ColumnView> {
    seq![
        column("Name"@, ColumnWidth::Percent(25), ColumnAlign::Left),
        column("Status"@, ColumnWidth::Fixed(10), ColumnAlign::Left),
        column("Format"@, ColumnWidth::Fixed(10), ColumnAlign::Left),
        column("Size"@, ColumnWidth::Fixed(10), ColumnAlign::Right),
        column("Visibility"@, ColumnWidth::Fixed(12), ColumnAlign::Left),
    ]
}

/// The columns of the image table.
pub fn image_columns() -> (r: Vec<ColumnDef>)
    ensures
        columns_view(r@) == image_columns_spec(),
{
    let mut r: Vec<ColumnDef> = Vec::new();
    push_column(&mut r, "Name", ColumnWidth::Percent(25), ColumnAlign::Left);
    push_column(&mut r, "Status", ColumnWidth::Fixed(10), ColumnAlign::Left);
    push_column(&mut r, "Format", ColumnWidth::Fixed(10), ColumnAlign::Left);
    push_column(&mut r, "Size", ColumnWidth::Fixed(10), ColumnAlign::Right);
    push_column(&mut r, "Visibility", ColumnWidth::Fixed(12), ColumnAlign::Left);
    r
}

/// Every image row has one cell per column of the table it is made for.
pub proof fn lemma_image_row_fits_columns(img: Image)
    ensures
        image_row_spec(img).cells.len() == image_columns_spec().len(),
{
}

/// An image's detail screen has a Properties section second, whose first
/// entries read `Visibility` with the image's visibility, `Min Disk` with
/// its minimum disk in GB, and `Min RAM` with its minimum RAM in MB.
pub proof fn lemma_image_properties(img: Image)
    ensures
        ({
            let s = image_detail_spec(img).sections[1];
            &&& s.name == "Properties"@
            &&& s.fields.len() >= 3
            &&& s.fields[0] matches FieldView::KeyValue { key, value, style }
                && key == "Visibility"@ && value == img.visibility@ && style is None
            &&& s.fields[1] matches FieldView::KeyValue { key, value, style }
                && key == "Min Disk"@ && value == dec(img.min_disk as nat) + " GB"@ && style is None
            &&& s.fields[2] matches FieldView::KeyValue { key, value, style }
                && key == "Min RAM"@ && value == dec(img.min_ram as nat) + " MB"@ && style is None
        }),
{
}

/// An image's row reads its name, its status, its disk format or `-`, its
/// size, and its visibility.
pub proof fn lemma_image_row_cells(img: Image)
    ensures
        image_row_spec(img).cells.len() == 5,
        image_row_spec(img).cells[0] == img.name@,
        img.disk_format matches Some(f) ==> image_row_spec(img).cells[2] == f@,
        img.disk_format is None ==> image_row_spec(img).cells[2] == "-"@,
        img.size is None ==> image_row_spec(img).cells[3] == "-"@,
        image_row_spec(img).cells[4] == img.visibility@,
{
}

} // verus!
