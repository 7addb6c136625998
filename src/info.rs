use vstd::prelude::*;

verus! {

/// The hardware generations of the panel family.
#[derive(Debug, Copy, Clone, PartialEq, Eq, Structural)]
pub enum Kind {
    Original,
    OriginalV2,
    Mini,
    RevisedMini,
    Xl,
    Mk2,
    Plus,
    Module6Keys,
    Module15Keys,
    Module32Keys,
}

/// Order in which logical keys are wired on the panel.
#[derive(Debug, Copy, Clone, PartialEq, Eq, Structural)]
pub enum KeyDirection {
    LeftToRight,
    RightToLeft,
}

/// Encoding of the key images on the wire.
#[derive(Debug, Copy, Clone, PartialEq, Eq, Structural)]
pub enum ImageMode {
    Bmp,
    Jpeg,
}

/// Order of the three colour channels in a serialised pixel.
#[derive(Debug, Copy, Clone, PartialEq, Eq, Structural)]
pub enum ColourOrder {
    RGB,
    BGR,
}

/// Clockwise rotation to apply to an image.
#[derive(Debug, Copy, Clone, PartialEq, Eq, Structural)]
pub enum Rotation {
    Rot0,
    Rot90,
    Rot180,
    Rot270,
}

/// Mirroring to apply to an image: `X` flips vertically, `Y` horizontally.
#[derive(Debug, Copy, Clone, PartialEq, Eq, Structural)]
pub enum Mirroring {
    NoMirror,
    X,
    Y,
    Both,
}

/// The 54-byte uncompressed bitmap file header that legacy panels expect
/// ahead of the pixel data.
pub open spec fn legacy_bitmap_header() -> Seq<u8> {
    seq![
        0x42u8, 0x4d, 0xf6, 0x3c, 0x00, 0x00, 0x00, 0x00, 0x00, 0x00, 0x36, 0x00, 0x00, 0x00,
        0x28, 0x00, 0x00, 0x00, 0x48, 0x00, 0x00, 0x00, 0x48, 0x00, 0x00, 0x00, 0x01, 0x00,
        0x18, 0x00, 0x00, 0x00, 0x00, 0x00, 0xc0, 0x3c, 0x00, 0x00, 0xc4, 0x0e, 0x00, 0x00,
        0xc4, 0x0e, 0x00, 0x00, 0x00, 0x00, 0x00, 0x00, 0x00, 0x00, 0x00, 0x00,
    ]
}

impl Kind {
    pub open spec fn keys_spec(self) -> u8 {
        match self {
            Kind::Original | Kind::OriginalV2 | Kind::Mk2 => 15,
            Kind::Mini | Kind::RevisedMini => 6,
            Kind::Xl => 32,
            Kind::Plus => 8,
            Kind::Module6Keys => 6,
            Kind::Module15Keys => 15,
            Kind::Module32Keys => 32,
        }
    }

    pub open spec fn key_data_offset_spec(self) -> usize {
        match self {
            Kind::Original => 0,
            Kind::OriginalV2 | Kind::Mk2 => 3,
            Kind::Mini | Kind::RevisedMini => 0,
            Kind::Xl => 3,
            Kind::Plus => 3,
            Kind::Module6Keys => 1,
            Kind::Module15Keys => 4,
            Kind::Module32Keys => 4,
        }
    }

    pub open spec fn key_direction_spec(self) -> KeyDirection {
        match self {
            Kind::Original => KeyDirection::RightToLeft,
            _ => KeyDirection::LeftToRight,
        }
    }

    pub open spec fn key_index_offset_spec(self) -> u8 {
        match self {
            Kind::RevisedMini => 1,
            _ => 0,
        }
    }

    pub open spec fn key_columns_spec(self) -> u8 {
        match self {
            Kind::Mini | Kind::RevisedMini | Kind::Module6Keys => 3,
            Kind::Original | Kind::OriginalV2 | Kind::Mk2 | Kind::Module15Keys => 5,
            Kind::Xl | Kind::Module32Keys => 8,
            Kind::Plus => 4,
        }
    }

    pub open spec fn image_mode_spec(self) -> ImageMode {
        match self {
            Kind::Original | Kind::Mini | Kind::RevisedMini | Kind::Module6Keys => ImageMode::Bmp,
            _ => ImageMode::Jpeg,
        }
    }

    pub open spec fn image_size_spec(self) -> (usize, usize) {
        match self {
            Kind::Original | Kind::OriginalV2 | Kind::Mk2 | Kind::Module15Keys => (72, 72),
            Kind::Mini | Kind::RevisedMini | Kind::Module6Keys => (80, 80),
            Kind::Xl | Kind::Module32Keys => (96, 96),
            Kind::Plus => (120, 120),
        }
    }

    pub open spec fn image_rotation_spec(self) -> Rotation {
        match self {
            Kind::Mini | Kind::RevisedMini | Kind::Module6Keys => Rotation::Rot270,
            Kind::Module15Keys | Kind::Module32Keys => Rotation::Rot180,
            _ => Rotation::Rot0,
        }
    }

    pub open spec fn image_mirror_spec(self) -> Mirroring {
        match self {
            Kind::Original => Mirroring::Y,
            Kind::OriginalV2 | Kind::Xl | Kind::Mk2 => Mirroring::Both,
            _ => Mirroring::NoMirror,
        }
    }

    /// Bytes of an uncompressed key image: width * height * 3.
    pub open spec fn image_size_bytes_spec(self) -> int {
        self.image_size_spec().0 * self.image_size_spec().1 * 3
    }

    pub open spec fn image_report_len_spec(self) -> usize {
        match self {
            Kind::Original => 8191,
            _ => 1024,
        }
    }

    pub open spec fn image_report_header_len_spec(self) -> usize {
        match self {
            Kind::OriginalV2 | Kind::Xl | Kind::Mk2 | Kind::Plus => 8,
            _ => 16,
        }
    }

    pub open spec fn image_base_spec(self) -> Seq<u8> {
        match self {
            Kind::Original | Kind::Mini | Kind::RevisedMini | Kind::Module6Keys => legacy_bitmap_header(),
            _ => Seq::empty(),
        }
    }

    pub open spec fn image_colour_order_spec(self) -> ColourOrder {
        match self {
            Kind::Original | Kind::Mini | Kind::RevisedMini | Kind::Module6Keys => ColourOrder::BGR,
            _ => ColourOrder::RGB,
        }
    }

    pub open spec fn is_v2_spec(self) -> bool {
        match self {
            Kind::OriginalV2 | Kind::Xl | Kind::Mk2 | Kind::Plus => true,
            _ => false,
        }
    }

    pub open spec fn is_module_spec(self) -> bool {
        match self {
            Kind::Module6Keys | Kind::Module15Keys | Kind::Module32Keys => true,
            _ => false,
        }
    }

    /// Whether images go out in the fixed two-report transfer of the first generation.
    pub open spec fn uses_legacy_protocol_spec(self) -> bool {
        self == Kind::Original
    }

    /// Whether button reports can instead carry dial or touch events.
    pub open spec fn multiplexes_input_spec(self) -> bool {
        self == Kind::Plus
    }

    /// Number of keys on the panel.
    pub fn keys(&self) -> (r: u8)
        ensures
            r == self.keys_spec(),
    {
        match self {
            Kind::Original | Kind::OriginalV2 | Kind::Mk2 => 15,
            Kind::Mini | Kind::RevisedMini => 6,
            Kind::Xl => 32,
            Kind::Plus => 8,
            Kind::Module6Keys => 6,
            Kind::Module15Keys => 15,
            Kind::Module32Keys => 32,
        }
    }

    /// Offset of the first key byte in a button report, after the report id.
    pub fn key_data_offset(&self) -> (r: usize)
        ensures
            r == self.key_data_offset_spec(),
    {
        match self {
            Kind::Original => 0,
            Kind::OriginalV2 | Kind::Mk2 => 3,
            Kind::Mini | Kind::RevisedMini => 0,
            Kind::Xl => 3,
            Kind::Plus => 3,
            Kind::Module6Keys => 1,
            Kind::Module15Keys => 4,
            Kind::Module32Keys => 4,
        }
    }

    pub fn key_direction(&self) -> (r: KeyDirection)
        ensures
            r == self.key_direction_spec(),
    {
        match self {
            Kind::Original => KeyDirection::RightToLeft,
            _ => KeyDirection::LeftToRight,
        }
    }

    /// Hardware index of the first key, for left-to-right panels.
    pub fn key_index_offset(&self) -> (r: u8)
        ensures
            r == self.key_index_offset_spec(),
    {
        match self {
            Kind::RevisedMini => 1,
            _ => 0,
        }
    }

    pub fn key_columns(&self) -> (r: u8)
        ensures
            r == self.key_columns_spec(),
    {
        match self {
            Kind::Mini | Kind::RevisedMini | Kind::Module6Keys => 3,
            Kind::Original | Kind::OriginalV2 | Kind::Mk2 | Kind::Module15Keys => 5,
            Kind::Xl | Kind::Module32Keys => 8,
            Kind::Plus => 4,
        }
    }

    pub fn image_mode(&self) -> (r: ImageMode)
        ensures
            r == self.image_mode_spec(),
    {
        match self {
            Kind::Original | Kind::Mini | Kind::RevisedMini | Kind::Module6Keys => ImageMode::Bmp,
            Kind::OriginalV2 | Kind::Xl | Kind::Mk2 | Kind::Plus | Kind::Module15Keys
            | Kind::Module32Keys => ImageMode::Jpeg,
        }
    }

    /// Width and height in pixels of a key image.
    pub fn image_size(&self) -> (r: (usize, usize))
        ensures
            r == self.image_size_spec(),
    {
        match self {
            Kind::Original | Kind::OriginalV2 | Kind::Mk2 | Kind::Module15Keys => (72, 72),
            Kind::Mini | Kind::RevisedMini | Kind::Module6Keys => (80, 80),
            Kind::Xl | Kind::Module32Keys => (96, 96),
            Kind::Plus => (120, 120),
        }
    }

    pub fn image_rotation(&self) -> (r: Rotation)
        ensures
            r == self.image_rotation_spec(),
    {
        match self {
            Kind::Mini | Kind::RevisedMini | Kind::Module6Keys => Rotation::Rot270,
            Kind::Module15Keys | Kind::Module32Keys => Rotation::Rot180,
            _ => Rotation::Rot0,
        }
    }

    pub fn image_mirror(&self) -> (r: Mirroring)
        ensures
            r == self.image_mirror_spec(),
    {
        match self {
            // these panels compensate by rotation alone
            Kind::Mini | Kind::RevisedMini | Kind::Plus | Kind::Module6Keys | Kind::Module15Keys
            | Kind::Module32Keys => Mirroring::NoMirror,
            // the first generation shows images flipped across the Y axis
            Kind::Original => Mirroring::Y,
            // the second generation flips both axes
            Kind::OriginalV2 | Kind::Xl | Kind::Mk2 => Mirroring::Both,
        }
    }

    pub fn image_size_bytes(&self) -> (r: usize)
        ensures
            r == self.image_size_bytes_spec(),
    {
        let (x, y) = self.image_size();
        x * y * 3
    }

    /// Total length of one image report.
    pub fn image_report_len(&self) -> (r: usize)
        ensures
            r == self.image_report_len_spec(),
    {
        match self {
            Kind::Original => 8191,
            _ => 1024,
        }
    }

    /// Length of the header at the start of each image report.
    pub fn image_report_header_len(&self) -> (r: usize)
        ensures
            r == self.image_report_header_len_spec(),
    {
        match self {
            Kind::Original | Kind::Mini | Kind::RevisedMini => 16,
            Kind::OriginalV2 | Kind::Xl | Kind::Mk2 | Kind::Plus => 8,
            Kind::Module6Keys | Kind::Module15Keys | Kind::Module32Keys => 16,
        }
    }

    /// Bytes sent ahead of the pixel data in the first image report:
    /// the bitmap file header for bitmap panels, nothing for the others.
    pub fn image_base(&self) -> (r: Vec<u8>)
        ensures
            r@ == self.image_base_spec(),
    {
        match self {
            Kind::Original | Kind::Mini | Kind::RevisedMini | Kind::Module6Keys => {
                let r: Vec<u8> = vec![
                    0x42u8, 0x4d, 0xf6, 0x3c, 0x00, 0x00, 0x00, 0x00, 0x00, 0x00, 0x36, 0x00,
                    0x00, 0x00, 0x28, 0x00, 0x00, 0x00, 0x48, 0x00, 0x00, 0x00, 0x48, 0x00,
                    0x00, 0x00, 0x01, 0x00, 0x18, 0x00, 0x00, 0x00, 0x00, 0x00, 0xc0, 0x3c,
                    0x00, 0x00, 0xc4, 0x0e, 0x00, 0x00, 0xc4, 0x0e, 0x00, 0x00, 0x00, 0x00,
                    0x00, 0x00, 0x00, 0x00, 0x00, 0x00,
                ];
                assert(r@ =~= legacy_bitmap_header());
                r
            },
            Kind::OriginalV2 | Kind::Xl | Kind::Mk2 | Kind::Plus | Kind::Module15Keys
            | Kind::Module32Keys => {
                let r: Vec<u8> = Vec::new();
                assert(r@ =~= Seq::<u8>::empty());
                r
            },
        }
    }

    pub fn image_colour_order(&self) -> (r: ColourOrder)
        ensures
            r == self.image_colour_order_spec(),
    {
        match self {
            Kind::Original | Kind::Mini | Kind::RevisedMini | Kind::Module6Keys => ColourOrder::BGR,
            Kind::OriginalV2 | Kind::Xl | Kind::Mk2 | Kind::Plus | Kind::Module15Keys
            | Kind::Module32Keys => ColourOrder::RGB,
        }
    }

    /// Whether the panel speaks the second-generation command and header layout.
    pub fn is_v2(&self) -> (r: bool)
        ensures
            r == self.is_v2_spec(),
    {
        match self {
            Kind::OriginalV2 | Kind::Xl | Kind::Mk2 | Kind::Plus => true,
            _ => false,
        }
    }

    pub fn is_module(&self) -> (r: bool)
        ensures
            r == self.is_module_spec(),
    {
        match self {
            Kind::Module6Keys | Kind::Module15Keys | Kind::Module32Keys => true,
            _ => false,
        }
    }

    pub fn uses_legacy_protocol(&self) -> (r: bool)
        ensures
            r == self.uses_legacy_protocol_spec(),
    {
        match self {
            Kind::Original => true,
            _ => false,
        }
    }

    pub fn multiplexes_input(&self) -> (r: bool)
        ensures
            r == self.multiplexes_input_spec(),
    {
        match self {
            Kind::Plus => true,
            _ => false,
        }
    }
}

/// Every per-variant constant that governs geometry, encoding and framing.
pub struct Capabilities {
    pub key_count: u8,
    pub direction: KeyDirection,
    pub columns: u8,
    pub index_offset: u8,
    pub key_data_offset: usize,
    pub width: usize,
    pub height: usize,
    pub encoding: ImageMode,
    pub colour_order: ColourOrder,
    pub rotation: Rotation,
    pub mirror: Mirroring,
    pub report_len: usize,
    pub header_len: usize,
    pub embedded_header: Vec<u8>,
    pub legacy_protocol: bool,
}

impl Kind {
    /// The capability record of the variant.
    pub fn capabilities(&self) -> (r: Capabilities)
        ensures
            r.key_count == self.keys_spec(),
            r.direction == self.key_direction_spec(),
            r.columns == self.key_columns_spec(),
            r.index_offset == self.key_index_offset_spec(),
            r.key_data_offset == self.key_data_offset_spec(),
            (r.width, r.height) == self.image_size_spec(),
            r.encoding == self.image_mode_spec(),
            r.colour_order == self.image_colour_order_spec(),
            r.rotation == self.image_rotation_spec(),
            r.mirror == self.image_mirror_spec(),
            r.report_len == self.image_report_len_spec(),
            r.header_len == self.image_report_header_len_spec(),
            r.embedded_header@ == self.image_base_spec(),
            r.legacy_protocol == self.uses_legacy_protocol_spec(),
    {
        let (width, height) = self.image_size();
        Capabilities {
            key_count: self.keys(),
            direction: self.key_direction(),
            columns: self.key_columns(),
            index_offset: self.key_index_offset(),
            key_data_offset: self.key_data_offset(),
            width,
            height,
            encoding: self.image_mode(),
            colour_order: self.image_colour_order(),
            rotation: self.image_rotation(),
            mirror: self.image_mirror(),
            report_len: self.image_report_len(),
            header_len: self.image_report_header_len(),
            embedded_header: self.image_base(),
            legacy_protocol: self.uses_legacy_protocol(),
        }
    }
}

/// Every variant has a complete and consistent capability record: keys fill
/// whole rows, images have a positive size, headers leave room for payload
/// in a report, bitmap variants (and only they) take BGR order and the
/// embedded bitmap header, and right-to-left wiring belongs to the variant of
/// the fixed two-report transfer alone.
pub proof fn lemma_capabilities_defined(kind: Kind)
    ensures
        kind.keys_spec() > 0,
        kind.key_columns_spec() > 0,
        kind.keys_spec() % kind.key_columns_spec() == 0,
        kind.key_index_offset_spec() <= 1,
        kind.image_size_spec().0 > 0,
        kind.image_size_spec().1 > 0,
        kind.image_report_header_len_spec() + kind.image_base_spec().len()
            < kind.image_report_len_spec(),
        (kind.image_mode_spec() == ImageMode::Bmp) <==> (kind.image_colour_order_spec()
            == ColourOrder::BGR),
        (kind.image_mode_spec() == ImageMode::Bmp) <==> (kind.image_base_spec()
            == legacy_bitmap_header()),
        (kind.image_mode_spec() == ImageMode::Jpeg) <==> (kind.image_base_spec().len() == 0),
        kind.key_direction_spec() == KeyDirection::RightToLeft ==> kind.uses_legacy_protocol_spec(),
        kind.uses_legacy_protocol_spec() ==> kind.image_mode_spec() == ImageMode::Bmp,
{
    assert(legacy_bitmap_header().len() == 54);
}

} // verus!
