use flash_rbf::kernel::{text_equals, Kernel};

#[test]
fn kernels_by_name() {
    assert_eq!(Kernel::from_name("gaussian"), Some(Kernel::Gaussian));
    assert_eq!(Kernel::from_name("multiquadric"), Some(Kernel::Multiquadric));
    assert_eq!(Kernel::from_name("inverse_multiquadratic"), Some(Kernel::InverseMultiquadric));
    assert_eq!(Kernel::from_name("linear"), Some(Kernel::Linear));
    assert_eq!(Kernel::from_name("cubic"), Some(Kernel::Cubic));
}

#[test]
fn unknown_kernel_name() {
    assert_eq!(Kernel::from_name("inverse_multiquadric"), None);
    assert_eq!(Kernel::from_name("Gaussian"), None);
    assert_eq!(Kernel::from_name(""), None);
}

#[test]
fn default_kernel_is_gaussian() {
    assert_eq!(Kernel::select(None), Some(Kernel::Gaussian));
    assert_eq!(Kernel::select(Some("cubic")), Some(Kernel::Cubic));
    assert_eq!(Kernel::select(Some("quartic")), None);
    assert_eq!(Kernel::default(), Kernel::Gaussian);
}

#[test]
fn kernel_names_round_trip() {
    for k in [
        Kernel::Gaussian,
        Kernel::Multiquadric,
        Kernel::InverseMultiquadric,
        Kernel::Linear,
        Kernel::Cubic,
    ] {
        assert_eq!(Kernel::from_name(k.name()), Some(k));
    }
}

#[test]
fn text_comparison() {
    assert!(text_equals("héllo", "héllo"));
    assert!(!text_equals("hello", "hellO"));
    assert!(!text_equals("abc", "ab"));
}
