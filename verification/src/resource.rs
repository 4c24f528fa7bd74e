//! The resources by kind, as they stand in a document.
//!
//! A resource is made from a file, by `from_file`, or from a builder, by
//! `from_builder` and `build`. Once made it does not change.

use crate::accelerators::{AcceleratorsBuilder, AcceleratorsData};
use crate::codegen::{path_only_resource_text, write_path_only_resource, ResourceKind};
use crate::dialog::builder::DialogBuilder;
use crate::dialog::DialogData;
use crate::id::IdOrName;
use crate::lang::Lang;
use crate::menu::{MenuBuilder, MenuData};
use crate::rc_inline::{RcInlineBuilder, RcInlineData};
use crate::string_table::{StringTableBuilder, StringTableData};
use crate::user_defined::{UserDefinedBuilder, UserDefinedData};
use crate::version_info::{VersionInfoBuilder, VersionInfoData};
use vstd::prelude::*;
use vstd::std_specs::convert::FromSpecImpl;

verus! {

/// A resource that is the file of a bitmap.
pub struct Bitmap(pub(crate) Vec<u16>);

impl View for Bitmap {
    type V = Seq<u16>;

    closed spec fn view(&self) -> Seq<u16> {
        self.0@
    }
}

impl Bitmap {
    /// The resource that is the file at `path`. The path is given in 16-bit
    /// units, and as it is to stand in the script.
    pub fn from_file(path: Vec<u16>) -> (r: Bitmap)
        ensures
            r@ == path@,
    {
        Bitmap(path)
    }
}

/// A resource that is the file of a cursor.
pub struct Cursor(pub(crate) Vec<u16>);

impl View for Cursor {
    type V = Seq<u16>;

    closed spec fn view(&self) -> Seq<u16> {
        self.0@
    }
}

impl Cursor {
    /// The resource that is the file at `path`. The path is given in 16-bit
    /// units, and as it is to stand in the script.
    pub fn from_file(path: Vec<u16>) -> (r: Cursor)
        ensures
            r@ == path@,
    {
        Cursor(path)
    }
}

/// A resource that is the file of a font.
pub struct Font(pub(crate) Vec<u16>);

impl View for Font {
    type V = Seq<u16>;

    closed spec fn view(&self) -> Seq<u16> {
        self.0@
    }
}

impl Font {
    /// The resource that is the file at `path`. The path is given in 16-bit
    /// units, and as it is to stand in the script.
    pub fn from_file(path: Vec<u16>) -> (r: Font)
        ensures
            r@ == path@,
    {
        Font(path)
    }
}

/// A resource that is the file of an HTML page.
pub struct HTML(pub(crate) Vec<u16>);

impl View for HTML {
    type V = Seq<u16>;

    closed spec fn view(&self) -> Seq<u16> {
        self.0@
    }
}

impl HTML {
    /// The resource that is the file at `path`. The path is given in 16-bit
    /// units, and as it is to stand in the script.
    pub fn from_file(path: Vec<u16>) -> (r: HTML)
        ensures
            r@ == path@,
    {
        HTML(path)
    }
}

/// A resource that is the file of an icon.
pub struct Icon(pub(crate) Vec<u16>);

impl View for Icon {
    type V = Seq<u16>;

    closed spec fn view(&self) -> Seq<u16> {
        self.0@
    }
}

impl Icon {
    /// The resource that is the file at `path`. The path is given in 16-bit
    /// units, and as it is to stand in the script.
    pub fn from_file(path: Vec<u16>) -> (r: Icon)
        ensures
            r@ == path@,
    {
        Icon(path)
    }
}

/// A resource that is the file of a message table.
pub struct MessageTable(pub(crate) Vec<u16>);

impl View for MessageTable {
    type V = Seq<u16>;

    closed spec fn view(&self) -> Seq<u16> {
        self.0@
    }
}

impl MessageTable {
    /// The resource that is the file at `path`. The path is given in 16-bit
    /// units, and as it is to stand in the script.
    pub fn from_file(path: Vec<u16>) -> (r: MessageTable)
        ensures
            r@ == path@,
    {
        MessageTable(path)
    }
}

/// A string table.
pub struct StringTable(pub(crate) StringTableData);

impl View for StringTable {
    type V = StringTableData;

    closed spec fn view(&self) -> StringTableData {
        self.0
    }
}

impl StringTable {
    /// A builder with nothing declared.
    pub fn from_builder() -> (r: StringTableBuilder)
        ensures
            r@.is_new(),
    {
        StringTableBuilder::new()
    }
}

impl StringTableBuilder {
    /// The resource that was built.
    pub fn build(self) -> (r: StringTable)
        ensures
            r@ == self@,
    {
        StringTable(self.into_data())
    }
}

/// An accelerator table.
pub struct Accelerators(pub(crate) AcceleratorsData);

impl View for Accelerators {
    type V = AcceleratorsData;

    closed spec fn view(&self) -> AcceleratorsData {
        self.0
    }
}

impl Accelerators {
    /// A builder with nothing declared.
    pub fn from_builder() -> (r: AcceleratorsBuilder)
        ensures
            r@.is_new(),
    {
        AcceleratorsBuilder::new()
    }
}

impl AcceleratorsBuilder {
    /// The resource that was built.
    pub fn build(self) -> (r: Accelerators)
        ensures
            r@ == self@,
    {
        Accelerators(self.into_data())
    }
}

/// A menu.
pub struct Menu(pub(crate) MenuData);

impl View for Menu {
    type V = MenuData;

    closed spec fn view(&self) -> MenuData {
        self.0
    }
}

impl Menu {
    /// A builder with nothing declared.
    pub fn from_builder() -> (r: MenuBuilder)
        ensures
            r@.is_new(),
    {
        MenuBuilder::new()
    }
}

impl MenuBuilder {
    /// The resource that was built.
    pub fn build(self) -> (r: Menu)
        ensures
            r@ == self@,
    {
        Menu(self.into_data())
    }
}

/// Version information.
pub struct VersionInfo(pub(crate) VersionInfoData);

impl View for VersionInfo {
    type V = VersionInfoData;

    closed spec fn view(&self) -> VersionInfoData {
        self.0
    }
}

impl VersionInfo {
    /// A builder with nothing declared.
    pub fn from_builder() -> (r: VersionInfoBuilder)
        ensures
            r@.is_new(),
    {
        VersionInfoBuilder::new()
    }
}

impl VersionInfoBuilder {
    /// The resource that was built.
    pub fn build(self) -> (r: VersionInfo)
        ensures
            r@ == self@,
    {
        VersionInfo(self.into_data())
    }
}

/// Raw data.
pub struct RcInline(pub(crate) RcInlineData);

impl View for RcInline {
    type V = RcInlineData;

    closed spec fn view(&self) -> RcInlineData {
        self.0
    }
}

impl RcInline {
    /// A builder with nothing declared.
    pub fn from_builder() -> (r: RcInlineBuilder)
        ensures
            r@.is_new(),
    {
        RcInlineBuilder::new()
    }
}

impl RcInlineBuilder {
    /// The resource that was built.
    pub fn build(self) -> (r: RcInline)
        ensures
            r@ == self@,
    {
        RcInline(self.into_data())
    }
}

/// A dialog. Every control of it can be written.
pub struct Dialog(pub(crate) DialogData);

impl View for Dialog {
    type V = DialogData;

    closed spec fn view(&self) -> DialogData {
        self.0
    }
}

impl Dialog {
    #[verifier::type_invariant]
    spec fn controls_renderable(self) -> bool {
        self.0.renderable()
    }

    /// A builder with nothing declared.
    pub fn from_builder() -> (r: DialogBuilder)
        ensures
            r@.is_new(),
    {
        DialogBuilder::new()
    }
}

impl DialogBuilder {
    /// The resource that was built.
    pub fn build(self) -> (r: Dialog)
        ensures
            r@ == self@,
    {
        Dialog(self.into_data())
    }
}

/// A resource of a kind of the program's own.
pub struct UserDefined(pub(crate) UserDefinedData);

impl View for UserDefined {
    type V = UserDefinedData;

    closed spec fn view(&self) -> UserDefinedData {
        self.0
    }
}

impl UserDefined {
    /// A builder with nothing declared.
    pub fn from_builder() -> (r: UserDefinedBuilder)
        ensures
            r@ matches UserDefinedData::RcInline(data) && data.is_new(),
    {
        UserDefinedBuilder::new()
    }

    /// The resource that is the file at `path`. The path is given in 16-bit
    /// units, and as it is to stand in the script.
    pub fn from_file(path: Vec<u16>) -> (r: UserDefined)
        ensures
            r@ matches UserDefinedData::External(p) && p@ == path@,
    {
        UserDefined(UserDefinedData::External(path))
    }
}

impl UserDefinedBuilder {
    /// The resource that was built.
    pub fn build(self) -> (r: UserDefined)
        ensures
            r@ == self@,
    {
        UserDefined(self.into_data())
    }
}

/// A resource of any kind.
pub enum Resource {
    Bitmap(Bitmap),
    Cursor(Cursor),
    Font(Font),
    HTML(HTML),
    Icon(Icon),
    MessageTable(MessageTable),
    StringTable(StringTable),
    Accelerators(Accelerators),
    Menu(Menu),
    Dialog(Dialog),
    VersionInfo(VersionInfo),
    RcInline(RcInline),
    UserDefined(UserDefined),
}

impl From<Bitmap> for Resource {
    fn from(v: Bitmap) -> (r: Resource) {
        Resource::Bitmap(v)
    }
}

impl FromSpecImpl<Bitmap> for Resource {
    open spec fn obeys_from_spec() -> bool {
        true
    }

    open spec fn from_spec(v: Bitmap) -> Resource {
        Resource::Bitmap(v)
    }
}

impl From<Cursor> for Resource {
    fn from(v: Cursor) -> (r: Resource) {
        Resource::Cursor(v)
    }
}

impl FromSpecImpl<Cursor> for Resource {
    open spec fn obeys_from_spec() -> bool {
        true
    }

    open spec fn from_spec(v: Cursor) -> Resource {
        Resource::Cursor(v)
    }
}

impl From<Font> for Resource {
    fn from(v: Font) -> (r: Resource) {
        Resource::Font(v)
    }
}

impl FromSpecImpl<Font> for Resource {
    open spec fn obeys_from_spec() -> bool {
        true
    }

    open spec fn from_spec(v: Font) -> Resource {
        Resource::Font(v)
    }
}

impl From<HTML> for Resource {
    fn from(v: HTML) -> (r: Resource) {
        Resource::HTML(v)
    }
}

impl FromSpecImpl<HTML> for Resource {
    open spec fn obeys_from_spec() -> bool {
        true
    }

    open spec fn from_spec(v: HTML) -> Resource {
        Resource::HTML(v)
    }
}

impl From<Icon> for Resource {
    fn from(v: Icon) -> (r: Resource) {
        Resource::Icon(v)
    }
}

impl FromSpecImpl<Icon> for Resource {
    open spec fn obeys_from_spec() -> bool {
        true
    }

    open spec fn from_spec(v: Icon) -> Resource {
        Resource::Icon(v)
    }
}

impl From<MessageTable> for Resource {
    fn from(v: MessageTable) -> (r: Resource) {
        Resource::MessageTable(v)
    }
}

impl FromSpecImpl<MessageTable> for Resource {
    open spec fn obeys_from_spec() -> bool {
        true
    }

    open spec fn from_spec(v: MessageTable) -> Resource {
        Resource::MessageTable(v)
    }
}

impl From<StringTable> for Resource {
    fn from(v: StringTable) -> (r: Resource) {
        Resource::StringTable(v)
    }
}

impl FromSpecImpl<StringTable> for Resource {
    open spec fn obeys_from_spec() -> bool {
        true
    }

    open spec fn from_spec(v: StringTable) -> Resource {
        Resource::StringTable(v)
    }
}

impl From<Accelerators> for Resource {
    fn from(v: Accelerators) -> (r: Resource) {
        Resource::Accelerators(v)
    }
}

impl FromSpecImpl<Accelerators> for Resource {
    open spec fn obeys_from_spec() -> bool {
        true
    }

    open spec fn from_spec(v: Accelerators) -> Resource {
        Resource::Accelerators(v)
    }
}

impl From<Menu> for Resource {
    fn from(v: Menu) -> (r: Resource) {
        Resource::Menu(v)
    }
}

impl FromSpecImpl<Menu> for Resource {
    open spec fn obeys_from_spec() -> bool {
        true
    }

    open spec fn from_spec(v: Menu) -> Resource {
        Resource::Menu(v)
    }
}

impl From<Dialog> for Resource {
    fn from(v: Dialog) -> (r: Resource) {
        Resource::Dialog(v)
    }
}

impl FromSpecImpl<Dialog> for Resource {
    open spec fn obeys_from_spec() -> bool {
        true
    }

    open spec fn from_spec(v: Dialog) -> Resource {
        Resource::Dialog(v)
    }
}

impl From<VersionInfo> for Resource {
    fn from(v: VersionInfo) -> (r: Resource) {
        Resource::VersionInfo(v)
    }
}

impl FromSpecImpl<VersionInfo> for Resource {
    open spec fn obeys_from_spec() -> bool {
        true
    }

    open spec fn from_spec(v: VersionInfo) -> Resource {
        Resource::VersionInfo(v)
    }
}

impl From<RcInline> for Resource {
    fn from(v: RcInline) -> (r: Resource) {
        Resource::RcInline(v)
    }
}

impl FromSpecImpl<RcInline> for Resource {
    open spec fn obeys_from_spec() -> bool {
        true
    }

    open spec fn from_spec(v: RcInline) -> Resource {
        Resource::RcInline(v)
    }
}

impl From<UserDefined> for Resource {
    fn from(v: UserDefined) -> (r: Resource) {
        Resource::UserDefined(v)
    }
}

impl FromSpecImpl<UserDefined> for Resource {
    open spec fn obeys_from_spec() -> bool {
        true
    }

    open spec fn from_spec(v: UserDefined) -> Resource {
        Resource::UserDefined(v)
    }
}

impl Resource {
    /// The whole of the resource as the language `l` sees it, under the
    /// identifier `id_or_name`. A resource that is a file is the same for
    /// every language. Of any other resource a language sees what is
    /// declared for it, and nothing at all where nothing is.
    pub open spec fn script_segment(self, l: Lang, id_or_name: IdOrName) -> Seq<u8> {
        match self {
            Resource::Bitmap(r) => path_only_resource_text(l, id_or_name, ResourceKind::Bitmap, r@),
            Resource::Cursor(r) => path_only_resource_text(l, id_or_name, ResourceKind::Cursor, r@),
            Resource::Font(r) => path_only_resource_text(l, id_or_name, ResourceKind::Font, r@),
            Resource::HTML(r) => path_only_resource_text(l, id_or_name, ResourceKind::Html, r@),
            Resource::Icon(r) => path_only_resource_text(l, id_or_name, ResourceKind::Icon, r@),
            Resource::MessageTable(r) => path_only_resource_text(l, id_or_name, ResourceKind::MessageTable, r@),
            Resource::StringTable(r) => r@.script_segment(l, id_or_name),
            Resource::Accelerators(r) => r@.script_segment(l, id_or_name),
            Resource::Menu(r) => r@.script_segment(l, id_or_name),
            Resource::Dialog(r) => r@.script_segment(l, id_or_name),
            Resource::VersionInfo(r) => r@.script_segment(l, id_or_name),
            Resource::RcInline(r) => r@.script_segment(l, id_or_name),
            Resource::UserDefined(r) => r@.script_segment(l, id_or_name),
        }
    }

    /// Whether writing the resource for the language `l` comes with a
    /// warning about its identifier: only a string table that is written
    /// can come with one.
    pub open spec fn script_warns(self, l: Lang, id_or_name: IdOrName) -> bool {
        match self {
            Resource::StringTable(r) => r@.script_warns(l, id_or_name),
            _ => false,
        }
    }

    /// Appends the whole of the resource as the language `l` sees it, and
    /// says whether a warning is due for its identifier.
    pub fn write_script_segment(&self, w: &mut Vec<u8>, l: Lang, id_or_name: &IdOrName) -> (warning:
        bool)
        ensures
            final(w)@ == old(w)@ + self.script_segment(l, *id_or_name),
            warning == self.script_warns(l, *id_or_name),
    {
        match self {
            Resource::Bitmap(r) => {
                let _ = write_path_only_resource(
                    w,
                    l,
                    id_or_name,
                    ResourceKind::Bitmap,
                    r.0.as_slice(),
                );
                false
            },
            Resource::Cursor(r) => {
                let _ = write_path_only_resource(
                    w,
                    l,
                    id_or_name,
                    ResourceKind::Cursor,
                    r.0.as_slice(),
                );
                false
            },
            Resource::Font(r) => {
                let _ = write_path_only_resource(
                    w,
                    l,
                    id_or_name,
                    ResourceKind::Font,
                    r.0.as_slice(),
                );
                false
            },
            Resource::HTML(r) => {
                let _ = write_path_only_resource(
                    w,
                    l,
                    id_or_name,
                    ResourceKind::Html,
                    r.0.as_slice(),
                );
                false
            },
            Resource::Icon(r) => {
                let _ = write_path_only_resource(
                    w,
                    l,
                    id_or_name,
                    ResourceKind::Icon,
                    r.0.as_slice(),
                );
                false
            },
            Resource::MessageTable(r) => {
                let _ = write_path_only_resource(
                    w,
                    l,
                    id_or_name,
                    ResourceKind::MessageTable,
                    r.0.as_slice(),
                );
                false
            },
            Resource::StringTable(r) => r.0.write_script_segment(w, l, id_or_name),
            Resource::Accelerators(r) => {
                r.0.write_script_segment(w, l, id_or_name);
                false
            },
            Resource::Menu(r) => {
                r.0.write_script_segment(w, l, id_or_name);
                false
            },
            Resource::Dialog(r) => {
                proof {
                    use_type_invariant(r);
                }
                r.0.write_script_segment(w, l, id_or_name);
                false
            },
            Resource::VersionInfo(_) => false,
            Resource::RcInline(_) => false,
            Resource::UserDefined(_) => false,
        }
    }
}

} // verus!
