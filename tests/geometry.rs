use x264::colorspace::{
    is_supported, plane_size_of, plane_stride_of, planes_of, scale_from_csp, X264_CSP_BGR, X264_CSP_BGRA,
    X264_CSP_HIGH_DEPTH, X264_CSP_I420, X264_CSP_I422, X264_CSP_I444, X264_CSP_NV12,
    X264_CSP_NV16, X264_CSP_RGB, X264_CSP_YV12,
};
use x264::param::Param;
use x264::picture::Picture;

#[test]
fn i420_plane_sizes() {
    assert_eq!(plane_size_of(X264_CSP_I420, 640, 480, 0), Some(307200));
    assert_eq!(plane_size_of(X264_CSP_I420, 640, 480, 1), Some(76800));
    assert_eq!(plane_size_of(X264_CSP_I420, 640, 480, 2), Some(76800));
}

#[test]
fn odd_dimensions_round_down() {
    assert_eq!(plane_size_of(X264_CSP_I420, 5, 3, 0), Some(15));
    // 5 * 128 / 256 = 2 samples wide, then 2 * 3 * 128 / 256 = 3
    assert_eq!(plane_size_of(X264_CSP_I420, 5, 3, 1), Some(3));
    assert_eq!(plane_size_of(X264_CSP_I420, 4, 3, 1), Some(3));
    assert_eq!(plane_size_of(X264_CSP_NV12, 5, 3, 1), Some(7));
    assert_eq!(plane_size_of(X264_CSP_I420 | X264_CSP_HIGH_DEPTH, 5, 3, 1), Some(6));
}

#[test]
fn packed_and_semi_planar_sizes() {
    assert_eq!(plane_size_of(X264_CSP_BGR, 4, 2, 0), Some(24));
    assert_eq!(plane_size_of(X264_CSP_RGB, 4, 2, 0), Some(24));
    assert_eq!(plane_size_of(X264_CSP_BGRA, 4, 2, 0), Some(32));
    assert_eq!(plane_size_of(X264_CSP_BGRA, 4, 2, 1), Some(0));
    assert_eq!(plane_size_of(X264_CSP_NV16, 4, 2, 1), Some(8));
    assert_eq!(plane_size_of(X264_CSP_NV16, 4, 2, 2), Some(0));
    assert_eq!(plane_size_of(X264_CSP_I422, 4, 2, 1), Some(4));
    assert_eq!(plane_size_of(X264_CSP_I444, 4, 2, 2), Some(8));
}

#[test]
fn high_depth_doubles_size() {
    for csp in [X264_CSP_I420, X264_CSP_NV12, X264_CSP_I444, X264_CSP_BGRA] {
        for plane in 0..3 {
            let lo = plane_size_of(csp, 33, 17, plane).unwrap();
            let hi = plane_size_of(csp | X264_CSP_HIGH_DEPTH, 33, 17, plane).unwrap();
            assert_eq!(hi, 2 * lo);
        }
    }
}

#[test]
fn sizes_grow_with_dimensions() {
    for csp in [X264_CSP_I420, X264_CSP_YV12, X264_CSP_NV12, X264_CSP_RGB] {
        for plane in 0..3 {
            let mut last = 0;
            for w in 1..40 {
                let s = plane_size_of(csp, w, 9, plane).unwrap();
                assert!(s >= last);
                last = s;
            }
            let mut last = 0;
            for h in 1..40 {
                let s = plane_size_of(csp, 9, h, plane).unwrap();
                assert!(s >= last);
                last = s;
            }
        }
    }
}

#[test]
fn overflowing_size_is_none() {
    assert_eq!(plane_size_of(X264_CSP_I420, usize::MAX, 2, 0), None);
    assert_eq!(plane_size_of(X264_CSP_I420, usize::MAX / 256, usize::MAX / 256, 0), None);
}

#[test]
fn scale_table_entries() {
    let s = scale_from_csp(X264_CSP_NV12);
    assert_eq!(s.w, [256, 256, 0]);
    assert_eq!(s.h, [256, 128, 0]);
    assert_eq!(planes_of(X264_CSP_NV12), 2);
    assert_eq!(planes_of(X264_CSP_BGR), 1);
    assert_eq!(planes_of(X264_CSP_I420), 3);
}

#[test]
fn supported_formats() {
    assert!(is_supported(X264_CSP_I420));
    assert!(is_supported(X264_CSP_I420 | X264_CSP_HIGH_DEPTH));
    assert!(!is_supported(0));
    assert!(!is_supported(0x0009));
    assert!(!is_supported(0x0011));
}

#[test]
fn picture_planes_match_sizes() {
    let par = Param::new().set_dimension(48, 64);
    let pic = Picture::from_param(&par).unwrap();
    let total: usize = (0..3).map(|i| pic.as_slice(i).unwrap().len()).sum();
    assert_eq!(pic.as_slice(0).unwrap().len(), 64 * 48);
    assert_eq!(total, 64 * 48 * 3 / 2);
    assert!(pic.as_slice(1).unwrap().iter().all(|b| *b == 0));
}

#[test]
fn plane_index_out_of_range() {
    let par = Param::new().set_dimension(4, 4).set_csp(X264_CSP_BGR);
    let mut pic = Picture::from_param(&par).unwrap();
    assert_eq!(pic.as_slice(0).unwrap().len(), 48);
    assert_eq!(pic.as_slice(1).unwrap_err(), "Invalid Argument");
    assert_eq!(pic.as_slice(2).unwrap_err(), "Invalid Argument");
    assert_eq!(pic.as_mut_slice(1).unwrap_err(), "Invalid Argument");
    assert_eq!(pic.as_mut_slice(3).unwrap_err(), "Invalid Argument");
    let nv = Param::new().set_dimension(4, 4).set_csp(X264_CSP_NV12);
    let mut pic = Picture::from_param(&nv).unwrap();
    assert!(pic.as_mut_slice(1).is_ok());
    assert_eq!(pic.as_slice(2).unwrap_err(), "Invalid Argument");
}

#[test]
fn write_then_read_each_plane() {
    let par = Param::new().set_dimension(8, 8);
    let mut pic = Picture::from_param(&par).unwrap();
    for plane in 0..3 {
        let v = pic.as_mut_slice(plane).unwrap();
        let last = v.len() - 1;
        v[last] = 10 + plane as u8;
    }
    for plane in 0..3 {
        let v = pic.as_slice(plane).unwrap();
        assert_eq!(v[v.len() - 1], 10 + plane as u8);
        assert_eq!(v[0], 0);
    }
}

#[test]
fn unsupported_format_fails_allocation() {
    let par = Param::new().set_dimension(4, 4).set_csp(0x0009);
    assert_eq!(Picture::from_param(&par).unwrap_err(), "Allocation Failure");
    let huge = Param::new().set_dimension(usize::MAX, usize::MAX);
    assert_eq!(Picture::from_param(&huge).unwrap_err(), "Allocation Failure");
}

#[test]
fn timestamp_is_set() {
    let par = Param::new().set_dimension(2, 2);
    let pic = Picture::from_param(&par).unwrap();
    assert_eq!(pic.pts(), 0);
    let pic = pic.set_timestamp(-42);
    assert_eq!(pic.pts(), -42);
    assert_eq!(pic.csp(), X264_CSP_I420);
}

#[test]
fn plane_strides() {
    assert_eq!(plane_stride_of(X264_CSP_I420, 640, 0), Some(640));
    assert_eq!(plane_stride_of(X264_CSP_I420, 640, 1), Some(320));
    assert_eq!(plane_stride_of(X264_CSP_NV12, 640, 1), Some(640));
    assert_eq!(plane_stride_of(X264_CSP_BGR | X264_CSP_HIGH_DEPTH, 10, 0), Some(60));
    assert_eq!(plane_stride_of(X264_CSP_BGRA, usize::MAX, 0), None);
}
