use x264::encoder::Encoder;
use x264::nal::NalData;
use x264::param::Param;
use x264::picture::Picture;

fn header_nals() -> Vec<Vec<u8>> {
    vec![
        vec![0, 0, 0, 1, 0x67, 0x64, 0x00, 0x1e],
        vec![0, 0, 0, 1, 0x68, 0xeb],
        vec![0, 0, 1, 0x06, 0x05],
    ]
}

#[test]
fn test_open() {
    let par = Param::new().set_dimension(640, 480);

    let mut enc = Encoder::open(true).unwrap();

    let headers = enc.get_headers(0, &header_nals()).unwrap();

    println!("Headers len {}", headers.as_bytes().len());
    assert_eq!(headers.as_bytes().len(), 8 + 6 + 5);
    assert_eq!(par.height(), 640);
    assert_eq!(par.width(), 480);
}

#[test]
fn test_picture() {
    let par = Param::new().set_dimension(640, 480);
    {
        let mut pic = Picture::from_param(&par).unwrap();
        {
            let p = pic.as_mut_slice(0).unwrap();
            p[0] = 1;
        }
        let p = pic.as_slice(0).unwrap();

        assert_eq!(p[0], 1);
    }
}

#[test]
fn test_encode() {
    let par = Param::new().set_dimension(640, 480);
    let mut enc = Encoder::open(true).unwrap();
    let mut pic = Picture::from_param(&par).unwrap();

    let headers = enc.get_headers(0, &header_nals()).unwrap();

    println!("Headers len {}", headers.as_bytes().len());

    // A reordering engine that holds back two frames.
    let mut held: Vec<i64> = Vec::new();
    let mut out: Vec<(i64, i64)> = Vec::new();
    for pts in 0..5 {
        pic = pic.set_timestamp(pts as i64);
        held.push(pic.pts());
        let nals = if held.len() > 2 { vec![vec![0, 0, 1, 0x65]] } else { Vec::new() };
        let (p, d) = if nals.is_empty() { (0, 0) } else { (held.remove(0), out.len() as i64 - 2) };
        enc.set_delayed(held.len() as i32);
        let ret = enc.encode(Some(&pic), 0, &nals, p, d).unwrap();

        if let Some((_, pts, dts)) = ret {
            println!("Frame pts {}, dts {}", pts, dts);
            out.push((pts, dts));
        }
    }

    while enc.delayed_frames() {
        let p = held.remove(0);
        enc.set_delayed(held.len() as i32);
        let ret = enc.encode(None, 0, &vec![vec![0, 0, 1, 0x41]], p, out.len() as i64 - 2).unwrap();
        if let Some((_, pts, dts)) = ret {
            println!("Frame pts {}, dts {}", pts, dts);
            out.push((pts, dts));
        }
    }
    assert_eq!(out.len(), 5);
    assert_eq!(enc.submitted(), 5);
    assert_eq!(enc.emitted(), 5);
    let pts: Vec<i64> = out.iter().map(|o| o.0).collect();
    assert_eq!(pts, vec![0, 1, 2, 3, 4]);
}

#[test]
fn open_fails_without_handle() {
    assert_eq!(Encoder::open(false).unwrap_err(), "Out of Memory");
}

#[test]
fn headers_fail_on_negative_status() {
    let mut enc = Encoder::open(true).unwrap();
    assert_eq!(enc.get_headers(-1, &header_nals()).unwrap_err(), "Encoding Headers Failed");
}

#[test]
fn headers_concatenate_in_order() {
    let mut enc = Encoder::open(true).unwrap();
    let h = enc.get_headers(19, &header_nals()).unwrap();
    assert_eq!(
        h.as_bytes(),
        &[0, 0, 0, 1, 0x67, 0x64, 0x00, 0x1e, 0, 0, 0, 1, 0x68, 0xeb, 0, 0, 1, 0x06, 0x05][..]
    );
}

#[test]
fn encode_error_on_negative_status() {
    let mut enc = Encoder::open(true).unwrap();
    let par = Param::new().set_dimension(16, 16);
    let pic = Picture::from_param(&par).unwrap();
    let r = enc.encode(Some(&pic), -1, &vec![vec![1, 2]], 0, 0);
    assert_eq!(r.unwrap_err(), "Error encoding");
    assert_eq!(enc.submitted(), 0);
    assert_eq!(enc.emitted(), 0);
}

#[test]
fn encode_without_nals_is_none() {
    let mut enc = Encoder::open(true).unwrap();
    let par = Param::new().set_dimension(16, 16);
    let pic = Picture::from_param(&par).unwrap();
    let r = enc.encode(Some(&pic), 0, &Vec::new(), 7, 3).unwrap();
    assert!(r.is_none());
    assert_eq!(enc.submitted(), 1);
    assert_eq!(enc.emitted(), 0);
}

#[test]
fn encode_output_carries_engine_timestamps() {
    let mut enc = Encoder::open(true).unwrap();
    let r = enc.encode(None, 4, &vec![vec![9, 8], vec![7]], 12, -2).unwrap();
    let (data, pts, dts) = r.unwrap();
    assert_eq!(data.as_bytes(), &[9, 8, 7][..]);
    assert_eq!(pts, 12);
    assert_eq!(dts, -2);
    assert_eq!(enc.submitted(), 0);
    assert_eq!(enc.emitted(), 1);
}

#[test]
fn delayed_frames_follows_engine_count() {
    let mut enc = Encoder::open(true).unwrap();
    assert!(!enc.delayed_frames());
    enc.set_delayed(3);
    assert!(enc.delayed_frames());
    enc.set_delayed(0);
    assert!(!enc.delayed_frames());
}

#[test]
fn nal_data_from_empty_and_empty_payloads() {
    let none: Vec<Vec<u8>> = Vec::new();
    assert!(NalData::from_nals(&none).as_bytes().is_empty());
    let some = vec![Vec::new(), vec![5u8], Vec::new(), vec![6u8, 7]];
    assert_eq!(NalData::from_nals(&some).as_bytes(), &[5, 6, 7][..]);
}
