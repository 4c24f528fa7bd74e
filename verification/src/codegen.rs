//! The pieces of text that every kind of resource is rendered from.
//!
//! Each piece is given twice: as a specification function, which says what
//! the bytes are, and as a function that appends exactly those bytes to an
//! output buffer.

use crate::bytes::write_str;
use crate::digits::{
    decimal, hex, is_decimal_digit, lemma_signed_decimal_chars, signed_decimal, write_decimal,
    write_hex, write_signed_decimal,
};
use crate::escape::{narrow_str_text, prefer_narrow_text, write_narrow_str, write_os_str_prefer_narrow};
use crate::font::Font;
use crate::id::{Id, IdOrName};
use crate::lang::Lang;
use crate::multilang::ExtraInfo;
use crate::rect::Rect;
use vstd::prelude::*;
use vstd::string::StringSliceAdditionalSpecFns;
use vstd::utf8::encode_utf8;

verus! {

/// The kinds of resource, each with its keyword in the script.
#[derive(Copy, Clone, PartialEq, Eq, Debug, Structural)]
pub enum ResourceKind {
    Bitmap,
    Cursor,
    Font,
    Html,
    Icon,
    MessageTable,
    StringTable,
    Accelerators,
    Menu,
    Dialog,
    VersionInfo,
    RcInline,
}

impl ResourceKind {
    /// The keyword of the kind.
    pub open spec fn keyword_text(self) -> Seq<u8> {
        match self {
            ResourceKind::Bitmap => "BITMAP".spec_bytes(),
            ResourceKind::Cursor => "CURSOR".spec_bytes(),
            ResourceKind::Font => "FONT".spec_bytes(),
            ResourceKind::Html => "HTML".spec_bytes(),
            ResourceKind::Icon => "ICON".spec_bytes(),
            ResourceKind::MessageTable => "MESSAGETABLE".spec_bytes(),
            ResourceKind::StringTable => "STRINGTABLE".spec_bytes(),
            ResourceKind::Accelerators => "ACCELERATORS".spec_bytes(),
            ResourceKind::Menu => "MENUEX".spec_bytes(),
            ResourceKind::Dialog => "DIALOGEX".spec_bytes(),
            ResourceKind::VersionInfo => "VERSIONINFO".spec_bytes(),
            ResourceKind::RcInline => "RCDATA".spec_bytes(),
        }
    }

    /// The keyword of the kind.
    pub fn keyword(self) -> (r: &'static str)
        ensures
            r.spec_bytes() == self.keyword_text(),
    {
        match self {
            ResourceKind::Bitmap => "BITMAP",
            ResourceKind::Cursor => "CURSOR",
            ResourceKind::Font => "FONT",
            ResourceKind::Html => "HTML",
            ResourceKind::Icon => "ICON",
            ResourceKind::MessageTable => "MESSAGETABLE",
            ResourceKind::StringTable => "STRINGTABLE",
            ResourceKind::Accelerators => "ACCELERATORS",
            ResourceKind::Menu => "MENUEX",
            ResourceKind::Dialog => "DIALOGEX",
            ResourceKind::VersionInfo => "VERSIONINFO",
            ResourceKind::RcInline => "RCDATA",
        }
    }
}

/// The banner that opens every script: two lines of comment, an empty line,
/// and the directive that fixes the code page of the text to UTF-8.
pub open spec fn header_text() -> Seq<u8> {
    "// Resource script automatically generated by RESW-RS.\n".spec_bytes()
        + "// Do not edit this file manually.\n".spec_bytes() + "\n".spec_bytes()
        + "#pragma code_page(65001)\n".spec_bytes()
}

/// Appends the banner.
pub fn write_header(w: &mut Vec<u8>)
    ensures
        final(w)@ == old(w)@ + header_text(),
{
    write_str(w, "// Resource script automatically generated by RESW-RS.\n");
    write_str(w, "// Do not edit this file manually.\n");
    write_str(w, "\n");
    write_str(w, "#pragma code_page(65001)\n");
}

/// The literal for a number that is stored in `storage_bytes` bytes: its
/// decimal digits, and the suffix `L` where it is stored in more than two.
pub open spec fn c_numeric_text(value: int, storage_bytes: nat) -> Seq<u8> {
    if storage_bytes > 2 {
        signed_decimal(value).push(76u8)
    } else {
        signed_decimal(value)
    }
}

/// The literal for a 32-bit unsigned number, which always has the suffix.
pub open spec fn dword_text(value: u32) -> Seq<u8> {
    decimal(value as nat).push(76u8)
}

/// A literal with the suffix holds the letter `L` once, as its last
/// character; a literal without it does not hold the letter at all.
pub proof fn lemma_numeric_suffix(value: int, storage_bytes: nat)
    ensures
        storage_bytes > 2 ==> c_numeric_text(value, storage_bytes).last() == 76u8,
        forall|i: int|
            0 <= i < signed_decimal(value).len() ==> #[trigger] c_numeric_text(
                value,
                storage_bytes,
            )[i] != 76u8,
        storage_bytes > 2 ==> c_numeric_text(value, storage_bytes).len() == signed_decimal(
            value,
        ).len() + 1,
        storage_bytes <= 2 ==> c_numeric_text(value, storage_bytes).len() == signed_decimal(
            value,
        ).len(),
{
    lemma_signed_decimal_chars(value);
    assert forall|i: int| 0 <= i < signed_decimal(value).len() implies #[trigger] c_numeric_text(
        value,
        storage_bytes,
    )[i] != 76u8 by {
        let c = signed_decimal(value)[i];
        assert(is_decimal_digit(c) || c == 45);
    }
}

/// The literal of a 32-bit unsigned number is that of a number stored in
/// four bytes.
pub proof fn lemma_dword_text_is_long(value: u32)
    ensures
        dword_text(value) == c_numeric_text(value as int, 4),
{
}

/// Appends the literal for `value`, which is stored in `storage_bytes` bytes.
pub fn write_c_numeric(w: &mut Vec<u8>, value: i64, storage_bytes: usize)
    ensures
        final(w)@ == old(w)@ + c_numeric_text(value as int, storage_bytes as nat),
{
    write_signed_decimal(w, value);
    if storage_bytes > 2 {
        w.push(76u8);
    }
}

/// Appends the literal for an unsigned 8-bit number.
pub fn write_c_uchar(w: &mut Vec<u8>, c_uchar: u8)
    ensures
        final(w)@ == old(w)@ + c_numeric_text(c_uchar as int, 1),
{
    write_c_numeric(w, c_uchar as i64, 1)
}

/// Appends the literal for a signed 32-bit number.
pub fn write_c_int(w: &mut Vec<u8>, c_int: i32)
    ensures
        final(w)@ == old(w)@ + c_numeric_text(c_int as int, 4),
{
    write_c_numeric(w, c_int as i64, 4)
}

/// Appends the literal for a signed long number, which has 32 bits.
pub fn write_c_long(w: &mut Vec<u8>, c_long: i32)
    ensures
        final(w)@ == old(w)@ + c_numeric_text(c_long as int, 4),
{
    write_c_numeric(w, c_long as i64, 4)
}

/// Appends the literal for an unsigned 32-bit number.
pub fn write_dword(w: &mut Vec<u8>, dword: u32)
    ensures
        final(w)@ == old(w)@ + dword_text(dword),
{
    write_decimal(w, dword as u64);
    w.push(76u8);
}

/// Appends the literal for an unsigned 32-bit number that has to be there.
pub fn write_mandatory_dword(w: &mut Vec<u8>, dword: Option<&u32>)
    requires
        dword is Some,
    ensures
        final(w)@ == old(w)@ + dword_text(*dword->0),
{
    match dword {
        Some(v) => write_dword(w, *v),
        None => {},
    }
}

/// A comma and a space where `present` holds, nothing where it does not.
pub open spec fn separator_text(present: bool) -> Seq<u8> {
    if present {
        ", ".spec_bytes()
    } else {
        Seq::empty()
    }
}

/// Appends a comma and a space where `present` holds.
pub fn write_separator(w: &mut Vec<u8>, present: bool)
    ensures
        final(w)@ == old(w)@ + separator_text(present),
{
    if present {
        write_str(w, ", ");
    }
}

/// The four numbers of a rectangle, separated by commas.
pub open spec fn rect_text(rect: Rect) -> Seq<u8> {
    c_numeric_text(rect.x as int, 4) + ", ".spec_bytes() + c_numeric_text(rect.y as int, 4)
        + ", ".spec_bytes() + c_numeric_text(rect.width as int, 4) + ", ".spec_bytes()
        + c_numeric_text(rect.height as int, 4)
}

/// Appends the four numbers of `rect`.
pub fn write_rect(w: &mut Vec<u8>, rect: &Rect)
    ensures
        final(w)@ == old(w)@ + rect_text(*rect),
{
    write_c_int(w, rect.x);
    write_str(w, ", ");
    write_c_int(w, rect.y);
    write_str(w, ", ");
    write_c_int(w, rect.width);
    write_str(w, ", ");
    write_c_int(w, rect.height);
}

/// The numbers of a rectangle, or those of the zero rectangle where there
/// is none.
pub open spec fn mandatory_rect_text(rect: Option<Rect>) -> Seq<u8> {
    match rect {
        Some(r) => rect_text(r),
        None => rect_text(Rect::zero()),
    }
}

/// Appends the numbers of `rect`, or those of the zero rectangle.
pub fn write_mandatory_rect(w: &mut Vec<u8>, rect: Option<&Rect>)
    ensures
        final(w)@ == old(w)@ + mandatory_rect_text(
            match rect {
                Some(r) => Some(*r),
                None => None,
            },
        ),
{
    match rect {
        Some(rect) => write_rect(w, rect),
        None => {
            let zero = Rect::default();
            write_rect(w, &zero)
        },
    }
}

/// A font: size, typeface, weight, italic flag and character set.
pub open spec fn font_text(font: Font) -> Seq<u8> {
    c_numeric_text(font.size.0 as int, 4) + ", ".spec_bytes() + narrow_str_text(
        encode_utf8(font.typeface@),
    ) + ", ".spec_bytes() + c_numeric_text(font.weight.0 as int, 4) + ", ".spec_bytes()
        + c_numeric_text(font.italic.0 as int, 4) + ", ".spec_bytes() + c_numeric_text(
        font.charset.0 as int,
        1,
    )
}

/// Appends `font`.
pub fn write_font(w: &mut Vec<u8>, font: &Font)
    ensures
        final(w)@ == old(w)@ + font_text(*font),
{
    write_c_int(w, font.size.0);
    write_str(w, ", ");
    write_narrow_str(w, font.typeface.as_str());
    write_str(w, ", ");
    write_c_long(w, font.weight.0);
    write_str(w, ", ");
    write_c_int(w, font.italic.0);
    write_str(w, ", ");
    write_c_uchar(w, font.charset.0);
}

/// A numeric identifier: its decimal digits, without suffix.
pub open spec fn id_text(id: Id) -> Seq<u8> {
    decimal(id.0 as nat)
}

/// Appends the numeric identifier `id`.
pub fn write_id(w: &mut Vec<u8>, id: &Id)
    ensures
        final(w)@ == old(w)@ + id_text(*id),
{
    write_decimal(w, id.0 as u64);
}

/// An identifier: the digits of a number, or the narrow literal of a name.
pub open spec fn id_or_name_text(id_or_name: IdOrName) -> Seq<u8> {
    match id_or_name {
        IdOrName::Id(id) => id_text(id),
        IdOrName::Name(name) => narrow_str_text(encode_utf8(name@)),
    }
}

/// Appends the identifier `id_or_name`.
pub fn write_id_or_name(w: &mut Vec<u8>, id_or_name: &IdOrName)
    ensures
        final(w)@ == old(w)@ + id_or_name_text(*id_or_name),
{
    match id_or_name {
        IdOrName::Id(id) => write_id(w, id),
        IdOrName::Name(name) => write_narrow_str(w, name.as_str()),
    }
}

/// The literal of a path, given as 16-bit units.
pub open spec fn path_text(path: Seq<u16>) -> Seq<u8> {
    prefer_narrow_text(path)
}

/// Appends the literal of `path`.
pub fn write_path(w: &mut Vec<u8>, path: &[u16])
    ensures
        final(w)@ == old(w)@ + path_text(path@),
{
    write_os_str_prefer_narrow(w, path)
}

/// Whether a warning is due for an identifier that stands where the script
/// has no use for one: it is, unless the identifier is one of the few that
/// say as much.
pub fn ensure_id_or_name_ignorable(id_or_name: &IdOrName) -> (warning: bool)
    ensures
        warning == !id_or_name.ignorable(),
{
    !id_or_name.is_ignorable()
}

/// The numbers after the header of a resource: each is there only if it was
/// given, after a space.
pub open spec fn extra_info_text(extra_info: Option<ExtraInfo>) -> Seq<u8> {
    match extra_info {
        Some(info) => (match info.characteristics {
            Some(c) => " ".spec_bytes() + dword_text(c),
            None => Seq::empty(),
        }) + (match info.version {
            Some(v) => " ".spec_bytes() + dword_text(v),
            None => Seq::empty(),
        }),
        None => Seq::empty(),
    }
}

/// Appends the numbers after the header of a resource.
pub fn write_extra_info(w: &mut Vec<u8>, extra_info: Option<&ExtraInfo>)
    ensures
        final(w)@ == old(w)@ + extra_info_text(
            match extra_info {
                Some(info) => Some(*info),
                None => None,
            },
        ),
{
    if let Some(extra_info) = extra_info {
        if let Some(characteristics) = extra_info.characteristics {
            write_str(w, " ");
            write_dword(w, characteristics);
        }
        if let Some(version) = extra_info.version {
            write_str(w, " ");
            write_dword(w, version);
        }
    }
}

/// The statement that gives a window its styles: a `STYLE` clause where
/// there is a basic style, an `EXSTYLE` clause where there is an extended
/// one, both on one line where there are both, nothing where there is
/// neither.
pub open spec fn style_and_exstyle_text(basic: Option<u32>, extended: Option<u32>) -> Seq<u8> {
    match (basic, extended) {
        (None, None) => Seq::empty(),
        (Some(b), None) => "\nSTYLE ".spec_bytes() + dword_text(b),
        (None, Some(e)) => "\nEXSTYLE ".spec_bytes() + dword_text(e),
        (Some(b), Some(e)) => "\nSTYLE ".spec_bytes() + dword_text(b) + " EXSTYLE ".spec_bytes()
            + dword_text(e),
    }
}

/// Appends the statement that gives a window its styles.
pub fn write_style_and_exstyle_statements(
    w: &mut Vec<u8>,
    basic: Option<u32>,
    extended: Option<u32>,
)
    ensures
        final(w)@ == old(w)@ + style_and_exstyle_text(basic, extended),
{
    match (basic, extended) {
        (None, None) => {},
        (Some(basic), None) => {
            write_str(w, "\nSTYLE ");
            write_dword(w, basic);
        },
        (None, Some(extended)) => {
            write_str(w, "\nEXSTYLE ");
            write_dword(w, extended);
        },
        (Some(basic), Some(extended)) => {
            write_str(w, "\nSTYLE ");
            write_dword(w, basic);
            write_str(w, " EXSTYLE ");
            write_dword(w, extended);
        },
    }
}

/// The directive that names the language of the resource that follows.
pub open spec fn language_text(lang: Lang) -> Seq<u8> {
    "LANGUAGE 0x".spec_bytes() + hex(lang.0 as nat) + ", 0x".spec_bytes() + hex(lang.1 as nat)
        + "\n".spec_bytes()
}

/// The header of a resource: the language directive, the identifier and
/// the keyword of the kind, each followed by a space. A string table has no
/// identifier, and version information always has the identifier 1.
pub open spec fn resource_header_text(lang: Lang, id_or_name: IdOrName, kind: ResourceKind) -> Seq<
    u8,
> {
    language_text(lang) + (match kind {
        ResourceKind::StringTable => Seq::empty(),
        ResourceKind::VersionInfo => "1 ".spec_bytes(),
        _ => id_or_name_text(id_or_name) + " ".spec_bytes(),
    }) + kind.keyword_text() + " ".spec_bytes()
}

/// Whether the header of a resource comes with a warning: it does where the
/// kind has no use for the identifier and the identifier is not one of
/// those that may be ignored. Version information accepts the identifier 1,
/// which is the one it is always written with.
pub open spec fn resource_header_warns(id_or_name: IdOrName, kind: ResourceKind) -> bool {
    match kind {
        ResourceKind::StringTable => !id_or_name.ignorable(),
        ResourceKind::VersionInfo => !(id_or_name == IdOrName::Id(Id(1)))
            && !id_or_name.ignorable(),
        _ => false,
    }
}

/// The reserved identifier never brings a warning, whatever the kind of the
/// resource. On a string table every identifier brings one but those that
/// may be ignored; on version information the identifier 1 brings none
/// either; on any other kind no identifier brings one.
pub proof fn lemma_header_warning(id_or_name: IdOrName, kind: ResourceKind)
    ensures
        id_or_name == IdOrName::Id(Id(0xFFFF)) ==> !resource_header_warns(id_or_name, kind),
        id_or_name.ignorable() ==> !resource_header_warns(id_or_name, kind),
        kind == ResourceKind::StringTable ==> (resource_header_warns(id_or_name, kind)
            <==> !id_or_name.ignorable()),
        kind == ResourceKind::VersionInfo ==> (resource_header_warns(id_or_name, kind) <==> !(
        id_or_name == IdOrName::Id(Id(1))) && !id_or_name.ignorable()),
        kind != ResourceKind::StringTable && kind != ResourceKind::VersionInfo
            ==> !resource_header_warns(id_or_name, kind),
{
}

/// Appends the header of a resource, and says whether a warning is due for
/// its identifier.
pub fn write_resource_header(
    w: &mut Vec<u8>,
    lang: Lang,
    id_or_name: &IdOrName,
    kind: ResourceKind,
) -> (warning: bool)
    ensures
        final(w)@ == old(w)@ + resource_header_text(lang, *id_or_name, kind),
        warning == resource_header_warns(*id_or_name, kind),
{
    write_str(w, "LANGUAGE 0x");
    write_hex(w, lang.0 as u64);
    write_str(w, ", 0x");
    write_hex(w, lang.1 as u64);
    write_str(w, "\n");
    let mut warning = false;
    match kind {
        ResourceKind::StringTable => {
            warning = ensure_id_or_name_ignorable(id_or_name);
        },
        ResourceKind::VersionInfo => {
            let is_one = match id_or_name {
                IdOrName::Id(id) => id.0 == 1,
                IdOrName::Name(_) => false,
            };
            if !is_one {
                warning = ensure_id_or_name_ignorable(id_or_name);
            }
            write_str(w, "1 ");
        },
        _ => {
            write_id_or_name(w, id_or_name);
            write_str(w, " ");
        },
    }
    write_str(w, kind.keyword());
    write_str(w, " ");
    warning
}

/// A resource that is a file: the header, a space, the literal of the path
/// and the end of the line.
pub open spec fn path_only_resource_text(
    lang: Lang,
    id_or_name: IdOrName,
    kind: ResourceKind,
    path: Seq<u16>,
) -> Seq<u8> {
    resource_header_text(lang, id_or_name, kind) + " ".spec_bytes() + path_text(path)
        + "\n".spec_bytes()
}

/// Appends a resource that is a file, and says whether a warning is due for
/// its identifier.
pub fn write_path_only_resource(
    w: &mut Vec<u8>,
    lang: Lang,
    id_or_name: &IdOrName,
    kind: ResourceKind,
    path: &[u16],
) -> (warning: bool)
    ensures
        final(w)@ == old(w)@ + path_only_resource_text(lang, *id_or_name, kind, path@),
        warning == resource_header_warns(*id_or_name, kind),
{
    let warning = write_resource_header(w, lang, id_or_name, kind);
    write_str(w, " ");
    write_path(w, path);
    write_str(w, "\n");
    warning
}

} // verus!
