//! The layout of the disk image: which stage goes at which sector, built for which target.
use vstd::prelude::*;
use crate::disk::{NEXT_STAGE_LBA, STAGE2_SECTORS};
use crate::load::{KERNEL_LBA, STAGE3_LBA, STAGE4_LBA, STAGE_SECTORS};

verus! {

/// Bytes per disk sector.
pub const SECTOR_SIZE: u64 = 512;

/// A package of the workspace that goes into the image.
#[derive(Clone, Copy, Debug, PartialEq, Eq, Structural)]
pub enum Package {
    Bootloader,
    Stage2,
    Stage3,
    Stage4,
}

/// The target specification a package is built for.
#[derive(Clone, Copy, Debug, PartialEq, Eq, Structural)]
pub enum TargetSpec {
    Bits16,
    Bits32,
    Bits64,
}

/// Where a package's flat binary goes in the image.
#[derive(Clone, Copy, Debug, PartialEq, Eq, Structural)]
pub struct ImageSlot {
    pub package: Package,
    pub target: TargetSpec,
    pub lba: u64,
}

/// The slots of the image, in the order they are written.
pub open spec fn image_layout() -> Seq<ImageSlot> {
    seq![
        ImageSlot { package: Package::Bootloader, target: TargetSpec::Bits16, lba: 0 },
        ImageSlot { package: Package::Stage2, target: TargetSpec::Bits16, lba: 2048 },
        ImageSlot { package: Package::Stage3, target: TargetSpec::Bits32, lba: 3072 },
        ImageSlot { package: Package::Stage4, target: TargetSpec::Bits64, lba: 5120 },
    ]
}

/// The slots of the image: the boot sector and second stage built for 16 bits at sectors 0
/// and 2048, the third stage for 32 bits at 3072, the fourth for 64 bits at 5120.
pub fn disk_image_layout() -> (slots: Vec<ImageSlot>)
    ensures
        slots@ == image_layout(),
{
    let mut slots: Vec<ImageSlot> = Vec::new();
    slots.push(ImageSlot { package: Package::Bootloader, target: TargetSpec::Bits16, lba: 0 });
    slots.push(ImageSlot { package: Package::Stage2, target: TargetSpec::Bits16, lba: 2048 });
    slots.push(ImageSlot { package: Package::Stage3, target: TargetSpec::Bits32, lba: 3072 });
    slots.push(ImageSlot { package: Package::Stage4, target: TargetSpec::Bits64, lba: 5120 });
    slots
}

/// Byte offset in the image of sector `lba`.
pub fn image_offset(lba: u64) -> (offset: u64)
    requires
        lba * SECTOR_SIZE <= u64::MAX,
    ensures
        offset == lba * SECTOR_SIZE,
{
    lba * SECTOR_SIZE
}

/// The workspace name of a package.
pub fn package_name(p: Package) -> (name: &'static str)
    ensures
        name@ == match p {
            Package::Bootloader => "bootloader"@,
            Package::Stage2 => "stage2"@,
            Package::Stage3 => "stage3"@,
            Package::Stage4 => "stage4"@,
        },
{
    match p {
        Package::Bootloader => "bootloader",
        Package::Stage2 => "stage2",
        Package::Stage3 => "stage3",
        Package::Stage4 => "stage4",
    }
}

/// The file of the target specification.
pub fn target_file(t: TargetSpec) -> (name: &'static str)
    ensures
        name@ == match t {
            TargetSpec::Bits16 => "bits16.json"@,
            TargetSpec::Bits32 => "bits32.json"@,
            TargetSpec::Bits64 => "bits64.json"@,
        },
{
    match t {
        TargetSpec::Bits16 => "bits16.json",
        TargetSpec::Bits32 => "bits32.json",
        TargetSpec::Bits64 => "bits64.json",
    }
}

/// Each stage is read from the sector where the image places it, each read stays clear of the
/// next slot, and the kernel sits after the last stage's read.
pub proof fn lemma_loaders_read_their_slots()
    ensures
        image_layout()[1].lba == NEXT_STAGE_LBA,
        image_layout()[2].lba == STAGE3_LBA,
        image_layout()[3].lba == STAGE4_LBA,
        NEXT_STAGE_LBA + STAGE2_SECTORS <= image_layout()[2].lba,
        STAGE3_LBA + STAGE_SECTORS <= image_layout()[3].lba,
        STAGE4_LBA + STAGE_SECTORS <= KERNEL_LBA,
        image_layout()[0].lba + 1 <= image_layout()[1].lba,
{
}

} // verus!
