//! How the host boots the kernel: where the kernel image goes on the EFI
//! system partition, and the emulator command line.
use vstd::prelude::*;
use vstd::string::StringExecFns;

verus! {

/// The arguments QEMU is started with: no default devices, no display, the
/// serial port on standard I/O, the debug-exit device that lets the kernel
/// end the emulator, the given firmware image as BIOS, and the given
/// directory as a FAT drive.
pub open spec fn qemu_args_spec(bios: Seq<char>, boot_root: Seq<char>) -> Seq<Seq<char>> {
    seq![
        "-nodefaults"@,
        "-display"@,
        "none"@,
        "-serial"@,
        "stdio"@,
        "-device"@,
        "isa-debug-exit,iobase=0xf4,iosize=0x04"@,
        "-bios"@,
        bios,
        "-drive"@,
        "format=raw,file=fat:rw:"@ + boot_root,
    ]
}

/// The firmware path is passed whole after `-bios`, and the drive argument
/// is the FAT-drive prefix followed by the whole boot directory path,
/// whatever its length.
pub proof fn lemma_qemu_args_name_the_whole_paths(bios: Seq<char>, boot_root: Seq<char>)
    ensures
        qemu_args_spec(bios, boot_root).len() == 11,
        qemu_args_spec(bios, boot_root)[7] == "-bios"@,
        qemu_args_spec(bios, boot_root)[8] == bios,
        qemu_args_spec(bios, boot_root)[9] == "-drive"@,
        qemu_args_spec(bios, boot_root)[10].len() == 23 + boot_root.len(),
        qemu_args_spec(bios, boot_root)[10].subrange(0, 23) == "format=raw,file=fat:rw:"@,
        qemu_args_spec(bios, boot_root)[10].subrange(23, 23 + boot_root.len() as int) == boot_root,
{
    reveal_strlit("format=raw,file=fat:rw:");
    let d = qemu_args_spec(bios, boot_root)[10];
    assert(d == "format=raw,file=fat:rw:"@ + boot_root);
    assert(d.subrange(0, 23) =~= "format=raw,file=fat:rw:"@);
    assert(d.subrange(23, 23 + boot_root.len() as int) =~= boot_root);
}

/// The views of a vector of strings.
pub open spec fn string_views(v: Seq<String>) -> Seq<Seq<char>> {
    v.map_values(|s: String| s@)
}

/// The QEMU command line for booting the image under `boot_root` with the
/// firmware at `bios`.
pub fn qemu_args(bios: &str, boot_root: &str) -> (args: Vec<String>)
    ensures
        string_views(args@) == qemu_args_spec(bios@, boot_root@),
        args@.len() == 11,
        args@[7]@ == "-bios"@,
        args@[8]@ == bios@,
        args@[9]@ == "-drive"@,
        args@[10]@ == "format=raw,file=fat:rw:"@ + boot_root@,
{
    let mut args: Vec<String> = Vec::new();
    args.push(String::from_str("-nodefaults"));
    args.push(String::from_str("-display"));
    args.push(String::from_str("none"));
    args.push(String::from_str("-serial"));
    args.push(String::from_str("stdio"));
    args.push(String::from_str("-device"));
    args.push(String::from_str("isa-debug-exit,iobase=0xf4,iosize=0x04"));
    args.push(String::from_str("-bios"));
    args.push(String::from_str(bios));
    args.push(String::from_str("-drive"));
    let mut drive = String::from_str("format=raw,file=fat:rw:");
    drive.append(boot_root);
    args.push(drive);
    proof {
        assert(string_views(args@) =~= qemu_args_spec(bios@, boot_root@));
        lemma_qemu_args_name_the_whole_paths(bios@, boot_root@);
    }
    args
}

/// The path, below the root of the EFI system partition, at which x86_64
/// firmware looks for a boot image when no boot entry names one.
pub open spec fn boot_path_spec() -> Seq<Seq<char>> {
    seq!["EFI"@, "BOOT"@, "BOOTX64.EFI"@]
}

/// The components of the path the kernel image is copied to.
pub fn boot_path_components() -> (parts: Vec<String>)
    ensures
        string_views(parts@) == boot_path_spec(),
{
    let mut parts: Vec<String> = Vec::new();
    parts.push(String::from_str("EFI"));
    parts.push(String::from_str("BOOT"));
    parts.push(String::from_str("BOOTX64.EFI"));
    proof {
        assert(string_views(parts@) =~= boot_path_spec());
    }
    parts
}

/// What the firmware is told when the kernel's main function returns.
#[derive(Clone, Copy, Debug, PartialEq, Eq, Structural)]
pub enum BootStatus {
    /// `Status::SUCCESS`.
    Success,
    /// `Status::UNSUPPORTED`.
    Unsupported,
}

/// The status reported for the result of the kernel's main function:
/// success for `Ok`, unsupported for `Err`.
pub fn boot_status(result: Result<(), ()>) -> (s: BootStatus)
    ensures
        s == (if result is Ok { BootStatus::Success } else { BootStatus::Unsupported }),
{
    match result {
        Ok(_) => BootStatus::Success,
        Err(_) => BootStatus::Unsupported,
    }
}

} // verus!
