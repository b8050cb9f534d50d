use cppdvt::abi::{CallConv, Target};

#[test]
fn windows_x86_uses_thiscall() {
    let target = Target { windows: true, x86: true };
    assert_eq!(target.call_conv(), CallConv::Thiscall);
}

#[test]
fn windows_on_other_architectures_uses_c() {
    let target = Target { windows: true, x86: false };
    assert_eq!(target.call_conv(), CallConv::C);
}

#[test]
fn x86_on_other_systems_uses_c() {
    let target = Target { windows: false, x86: true };
    assert_eq!(target.call_conv(), CallConv::C);
}

#[test]
fn other_targets_use_c() {
    let target = Target { windows: false, x86: false };
    assert_eq!(target.call_conv(), CallConv::C);
}

#[test]
fn conventions_have_their_abi_names() {
    assert_eq!(CallConv::C.abi_name(), "C-unwind");
    assert_eq!(CallConv::Thiscall.abi_name(), "thiscall-unwind");
}
