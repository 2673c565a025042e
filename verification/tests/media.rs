use std::collections::HashSet;

use ord_render::codec::Mp4Track;
use ord_render::mp4_boxes::mp4_boxes_valid;
use ord_render::media::{table_entry, table_size, CompressionMode, ImageRendering, Media, MediaError};
use regex::Regex;

fn assert_regex_match(value: &str, pattern: &str) {
    let re = Regex::new(&format!("^(?s){}$", pattern)).unwrap();
    assert!(re.is_match(value), "{value:?} does not match {pattern:?}");
}

#[test]
fn for_extension() {
    assert_eq!(
        Media::content_type_for_path("pepe.jpg").unwrap(),
        ("image/jpeg", CompressionMode::Generic)
    );
    assert_eq!(
        Media::content_type_for_path("pepe.jpeg").unwrap(),
        ("image/jpeg", CompressionMode::Generic)
    );
    assert_eq!(
        Media::content_type_for_path("pepe.JPG").unwrap(),
        ("image/jpeg", CompressionMode::Generic)
    );
    assert_eq!(
        Media::content_type_for_path("pepe.txt").unwrap(),
        ("text/plain;charset=utf-8", CompressionMode::Text)
    );
    assert_regex_match(
        &Media::content_type_for_path("pepe.foo").unwrap_err().message(),
        r"unsupported file extension `\.foo`, supported extensions: apng .*",
    );
}

#[test]
fn no_duplicate_extensions() {
    let mut set = HashSet::new();
    for i in 0..table_size() {
        let (_, _, _, extensions) = table_entry(i);
        for extension in extensions {
            assert!(set.insert(*extension), "duplicate extension `{extension}`");
        }
    }
}

#[test]
fn sniff_glb_magic() {
    let mut body = b"glTF".to_vec();
    body.extend_from_slice(&[2, 0, 0, 0]);
    assert_eq!(Media::from_body_head(&body), Some(Media::Model));
}

#[test]
fn sniff_gltf_json() {
    let body = br#"{
  "asset": { "version": "2.0" },
  "scene": 0
}"#;
    assert_eq!(Media::from_body_head(body), Some(Media::Model));
}

#[test]
fn sniff_gltf_json_with_leading_whitespace() {
    let body = b"  \n  {\"asset\":{\"version\":\"2.1\"}}";
    assert_eq!(Media::from_body_head(body), Some(Media::Model));
}

#[test]
fn sniff_random_bytes_stays_unknown() {
    let body = [0xde, 0xad, 0xbe, 0xef, 0x00, 0x01, 0x02, 0x03];
    assert_eq!(Media::from_body_head(&body), None);
}

#[test]
fn sniff_json_without_asset_is_not_gltf() {
    let body = br#"{"foo":"bar"}"#;
    assert_eq!(Media::from_body_head(body), None);
}

#[test]
fn sniff_png() {
    let body = b"\x89PNG\r\n\x1a\n\x00\x00\x00\rIHDR";
    assert_eq!(
        Media::from_body_head(body),
        Some(Media::Image(ImageRendering::Pixelated))
    );
}

#[test]
fn sniff_jpeg() {
    let body = b"\xff\xd8\xff\xe0\x00\x10JFIF\x00\x01";
    assert_eq!(
        Media::from_body_head(body),
        Some(Media::Image(ImageRendering::Pixelated))
    );
}

#[test]
fn sniff_gif() {
    assert_eq!(
        Media::from_body_head(b"GIF89a\x10\x00\x10\x00"),
        Some(Media::Image(ImageRendering::Pixelated))
    );
    assert_eq!(
        Media::from_body_head(b"GIF87a\x10\x00\x10\x00"),
        Some(Media::Image(ImageRendering::Pixelated))
    );
}

#[test]
fn sniff_webp() {
    let mut body = b"RIFF".to_vec();
    body.extend_from_slice(&[0, 0, 0, 0]);
    body.extend_from_slice(b"WEBPVP8 ");
    assert_eq!(
        Media::from_body_head(&body),
        Some(Media::Image(ImageRendering::Pixelated))
    );
}

#[test]
fn sniff_mp4() {
    let mut body = vec![0, 0, 0, 0x20];
    body.extend_from_slice(b"ftypisom");
    body.extend_from_slice(&[0, 0, 0, 0]);
    assert_eq!(Media::from_body_head(&body), Some(Media::Video));
}

#[test]
fn sniff_mp4_mp42_brand() {
    let mut body = vec![0, 0, 0, 0x20];
    body.extend_from_slice(b"ftypmp42");
    body.extend_from_slice(&[0, 0, 0, 0]);
    assert_eq!(Media::from_body_head(&body), Some(Media::Video));
}

#[test]
fn sniff_mp4_rejects_heic() {
    let mut body = vec![0, 0, 0, 0x20];
    body.extend_from_slice(b"ftypheic");
    body.extend_from_slice(&[0, 0, 0, 0]);
    assert_eq!(Media::from_body_head(&body), None);
}

#[test]
fn sniff_mp4_rejects_quicktime() {
    let mut body = vec![0, 0, 0, 0x20];
    body.extend_from_slice(b"ftypqt  ");
    body.extend_from_slice(&[0, 0, 0, 0]);
    assert_eq!(Media::from_body_head(&body), None);
}

#[test]
fn sniff_ogg() {
    let body = b"OggS\x00\x02\x00\x00\x00\x00\x00\x00";
    assert_eq!(Media::from_body_head(body), Some(Media::Audio));
}

#[test]
fn sniff_wav() {
    let mut body = b"RIFF".to_vec();
    body.extend_from_slice(&[0, 0, 0, 0]);
    body.extend_from_slice(b"WAVEfmt ");
    assert_eq!(Media::from_body_head(&body), Some(Media::Audio));
}

#[test]
fn sniff_flac() {
    let body = b"fLaC\x00\x00\x00\x22";
    assert_eq!(Media::from_body_head(body), Some(Media::Audio));
}

#[test]
fn sniff_riff_avi_is_unknown() {
    let mut body = b"RIFF".to_vec();
    body.extend_from_slice(&[0, 0, 0, 0]);
    body.extend_from_slice(b"AVI LIST");
    assert_eq!(Media::from_body_head(&body), None);
}

#[test]
fn sniff_pdf() {
    let body = b"%PDF-1.4\n%\xe2\xe3\xcf\xd3";
    assert_eq!(Media::from_body_head(body), Some(Media::Pdf));
}

#[test]
fn path_without_extension_is_refused() {
    let err = Media::content_type_for_path("README").unwrap_err();
    assert!(matches!(err, MediaError::NoExtension));
    assert_eq!(err.message(), "file must have extension");
}

#[test]
fn unsupported_extension_lists_sorted_first_extensions() {
    let MediaError::UnsupportedExtension { extension, supported } =
        Media::content_type_for_path("a/b/pepe.FOO").unwrap_err()
    else {
        panic!("expected an unsupported extension");
    };
    assert_eq!(extension, "foo");
    let mut sorted = supported.clone();
    sorted.sort();
    assert_eq!(supported, sorted);
    assert_eq!(supported[0], "apng");
    assert!(supported.contains(&"mp4"));
}

#[test]
fn content_type_round_trips_to_media() {
    assert_eq!(Media::from_str("image/png").unwrap(), Media::Image(ImageRendering::Pixelated));
    assert_eq!(Media::from_str("video/mp4").unwrap(), Media::Video);
    let err = Media::from_str("application/x-nonsense").unwrap_err();
    assert!(matches!(&err, MediaError::UnknownContentType(c) if c == "application/x-nonsense"));
    assert_eq!(err.message(), "unknown content type: application/x-nonsense");
}

#[test]
fn every_listed_extension_maps_to_its_row() {
    for i in 0..table_size() {
        let (content_type, mode, _, extensions) = table_entry(i);
        for extension in extensions {
            let path = format!("file.{extension}");
            assert_eq!(Media::content_type_for_path(&path).unwrap(), (content_type, mode));
        }
    }
}

#[test]
fn mp4_extension_needs_codec_check() {
    assert!(Media::needs_codec_check("clip.mp4"));
    assert!(Media::needs_codec_check("clip.MP4"));
    assert!(!Media::needs_codec_check("clip.webm"));
    assert!(!Media::needs_codec_check("clip"));
}

#[test]
fn mp4_reader_error_is_reported() {
    let err = Media::check_mp4_codec(b"not an mp4 file").unwrap_err();
    assert!(matches!(err, MediaError::Mp4(_)));
}

#[test]
fn non_h264_video_track_is_rejected() {
    let tracks = vec![
        Mp4Track { is_video: Ok(false), media_type: Ok("aac".into()) },
        Mp4Track { is_video: Ok(true), media_type: Ok("h265".into()) },
    ];
    let err = Media::check_mp4_tracks(&tracks).unwrap_err();
    assert!(matches!(&err, MediaError::UnsupportedVideoCodec(c) if c == "h265"));
    assert_eq!(
        err.message(),
        "Unsupported video codec, only H.264 is supported in MP4: h265"
    );
}

#[test]
fn h264_and_audio_tracks_pass() {
    let tracks = vec![
        Mp4Track { is_video: Ok(true), media_type: Ok("h264".into()) },
        Mp4Track { is_video: Ok(false), media_type: Err("unknown".into()) },
    ];
    assert!(Media::check_mp4_tracks(&tracks).is_ok());
}

#[test]
fn unreadable_track_type_is_an_mp4_error() {
    let tracks = vec![Mp4Track { is_video: Err("bad handler".into()), media_type: Ok("h264".into()) }];
    let err = Media::check_mp4_tracks(&tracks).unwrap_err();
    assert!(matches!(&err, MediaError::Mp4(m) if m == "bad handler"));
}

#[test]
fn only_avif_and_jpeg_xl_upscale_smoothly() {
    for i in 0..table_size() {
        let (content_type, _, media, _) = table_entry(i);
        if let Media::Image(rendering) = media {
            let smooth = content_type == "image/avif" || content_type == "image/jxl";
            assert_eq!(rendering == ImageRendering::Auto, smooth, "{content_type}");
        }
    }
}

#[test]
fn sniff_html_and_svg_stay_unknown() {
    assert_eq!(Media::from_body_head(b"<!doctype html><html></html>"), None);
    assert_eq!(Media::from_body_head(b"<svg xmlns='http://www.w3.org/2000/svg'></svg>"), None);
}

fn mp4_box(kind: &[u8; 4], payload: &[u8]) -> Vec<u8> {
    let mut b = ((payload.len() + 8) as u32).to_be_bytes().to_vec();
    b.extend_from_slice(kind);
    b.extend_from_slice(payload);
    b
}

fn full_box(kind: &[u8; 4], payload: &[u8]) -> Vec<u8> {
    let mut p = vec![0, 0, 0, 0];
    p.extend_from_slice(payload);
    mp4_box(kind, &p)
}

fn sample_entry(kind: &[u8; 4], config: Vec<u8>) -> Vec<u8> {
    let mut p = vec![0u8; 78];
    p[7] = 1;
    p.extend(config);
    mp4_box(kind, &p)
}

fn movie(entry: Vec<u8>) -> Vec<u8> {
    let mut ftyp = b"isom".to_vec();
    ftyp.extend_from_slice(&[0, 0, 2, 0]);
    ftyp.extend_from_slice(b"isommp41");
    let mvhd = full_box(b"mvhd", &[0u8; 96]);
    let mut tkhd_payload = vec![0u8; 80];
    tkhd_payload[11] = 1;
    let tkhd = full_box(b"tkhd", &tkhd_payload);
    let mdhd = full_box(b"mdhd", &[0u8; 20]);
    let mut hdlr_payload = vec![0u8; 4];
    hdlr_payload.extend_from_slice(b"vide");
    hdlr_payload.extend_from_slice(&[0u8; 13]);
    let hdlr = full_box(b"hdlr", &hdlr_payload);
    let vmhd = full_box(b"vmhd", &[0u8; 8]);
    let url = mp4_box(b"url ", &[0, 0, 0, 1]);
    let mut dref_payload = vec![0, 0, 0, 1];
    dref_payload.extend(url);
    let dinf = mp4_box(b"dinf", &full_box(b"dref", &dref_payload));
    let mut stsd_payload = vec![0, 0, 0, 1];
    stsd_payload.extend(entry);
    let mut stbl = full_box(b"stsd", &stsd_payload);
    stbl.extend(full_box(b"stts", &[0u8; 4]));
    stbl.extend(full_box(b"stsc", &[0u8; 4]));
    stbl.extend(full_box(b"stsz", &[0u8; 8]));
    stbl.extend(full_box(b"stco", &[0u8; 4]));
    let mut minf = vmhd;
    minf.extend(dinf);
    minf.extend(mp4_box(b"stbl", &stbl));
    let mut mdia = mdhd;
    mdia.extend(hdlr);
    mdia.extend(mp4_box(b"minf", &minf));
    let mut trak = tkhd;
    trak.extend(mp4_box(b"mdia", &mdia));
    let mut moov = mvhd;
    moov.extend(mp4_box(b"trak", &trak));
    let mut file = mp4_box(b"ftyp", &ftyp);
    file.extend(mp4_box(b"moov", &moov));
    file.extend(mp4_box(b"mdat", &[]));
    file
}

fn h264_movie() -> Vec<u8> {
    sample_entry(b"avc1", mp4_box(b"avcC", &[1, 0x64, 0, 0x1f, 0xff, 0xe0, 0]))
}

#[test]
fn h264_video_passes_the_codec_check() {
    let file = movie(h264_movie());
    assert!(mp4_boxes_valid(&file));
    assert!(Media::check_mp4_codec(&file).is_ok());
}

#[test]
fn h265_video_is_rejected() {
    let file = movie(sample_entry(b"hev1", mp4_box(b"hvcC", &[1])));
    let err = Media::check_mp4_codec(&file).unwrap_err();
    assert!(matches!(&err, MediaError::UnsupportedVideoCodec(c) if c == "h265"));
}

#[test]
fn short_emsg_box_is_refused_before_the_reader() {
    let mut file = vec![0, 0, 0, 8];
    file.extend_from_slice(b"emsg");
    file.extend_from_slice(&[0u8; 22]);
    assert_eq!(file.len(), 30);
    assert!(!mp4_boxes_valid(&file));
    let err = Media::check_mp4_codec(&file).unwrap_err();
    assert!(matches!(&err, MediaError::Mp4(m) if m == "unsupported MP4 box structure"));
}

fn metadata_movie(data_payload: &[u8]) -> Vec<u8> {
    let mut hdlr_payload = vec![0u8; 4];
    hdlr_payload.extend_from_slice(b"mdir");
    hdlr_payload.extend_from_slice(&[0u8; 13]);
    let mut meta = full_box(b"hdlr", &hdlr_payload);
    let item = mp4_box(b"\xa9nam", &mp4_box(b"data", data_payload));
    meta.extend(mp4_box(b"ilst", &item));
    let udta = mp4_box(b"udta", &full_box(b"meta", &meta));
    mp4_box(b"moov", &udta)
}

fn large_box(kind: &[u8; 4], payload: &[u8]) -> Vec<u8> {
    let mut b = vec![0, 0, 0, 1];
    b.extend_from_slice(kind);
    b.extend_from_slice(&((payload.len() + 16) as u64).to_be_bytes());
    b.extend_from_slice(payload);
    b
}

#[test]
fn box_structure_rules() {
    assert!(mp4_boxes_valid(&[]));
    assert!(mp4_boxes_valid(&mp4_box(b"free", &[1, 2, 3])));
    // A size of zero inside a container would make the reader loop forever.
    let mut zero_child = vec![0, 0, 0, 0];
    zero_child.extend_from_slice(b"skip");
    assert!(!mp4_boxes_valid(&mp4_box(b"moov", &zero_child)));
    // A box that runs past the end of the file is the reader's to refuse.
    let mut long = mp4_box(b"free", &[0; 4]);
    long[3] = 20;
    assert!(mp4_boxes_valid(&long));
    // So are trailing bytes too short for a header.
    let mut trailing = mp4_box(b"free", &[]);
    trailing.extend_from_slice(&[0, 0, 0]);
    assert!(mp4_boxes_valid(&trailing));
    // A data box of a metadata item must hold its type and locale.
    assert!(!mp4_boxes_valid(&metadata_movie(&[0; 4])));
    assert!(mp4_boxes_valid(&metadata_movie(&[0; 8])));
    // Outside an item a short data box is only skipped.
    assert!(mp4_boxes_valid(&mp4_box(b"udta", &mp4_box(b"data", &[0; 4]))));
    // An emsg box whose strings and fields fit.
    let mut emsg = vec![0, 0, 0, 0, b'a', 0, 0];
    emsg.extend_from_slice(&[0u8; 16]);
    assert!(mp4_boxes_valid(&mp4_box(b"emsg", &emsg)));
    // One that records a size too small for them underflows the reader.
    let mut short = mp4_box(b"emsg", &emsg);
    short[3] -= 1;
    assert!(!mp4_boxes_valid(&short));
    // One that the file ends inside is the reader's to refuse.
    emsg.pop();
    assert!(mp4_boxes_valid(&mp4_box(b"emsg", &emsg)));
}

#[test]
fn meta_child_past_the_end_is_refused() {
    let mut file = metadata_movie(&[0; 8]);
    // The ilst box is the second child of meta; make it claim more bytes
    // than the file has.
    let ilst = file.windows(4).position(|w| w == b"ilst").unwrap() - 4;
    file[ilst + 2] = 1;
    assert!(!mp4_boxes_valid(&file));
}

#[test]
fn large_size_boxes_are_read() {
    assert!(mp4_boxes_valid(&large_box(b"free", &[])));
    assert!(mp4_boxes_valid(&large_box(b"moov", &mp4_box(b"free", &[1]))));
    // A 64-bit size below 16 is refused by the reader, not here.
    let mut small = large_box(b"free", &[]);
    small[15] = 8;
    assert!(mp4_boxes_valid(&small));
    let mut file = movie(h264_movie());
    file.extend(large_box(b"mdat", &[1, 2, 3, 4]));
    assert!(mp4_boxes_valid(&file));
    assert!(Media::check_mp4_codec(&file).is_ok());
}

#[test]
fn last_box_of_size_zero_ends_the_file() {
    let mut file = movie(h264_movie());
    file.extend_from_slice(&[0, 0, 0, 0]);
    file.extend_from_slice(b"mdat");
    file.extend_from_slice(&[1, 2, 3]);
    assert!(mp4_boxes_valid(&file));
    assert!(Media::check_mp4_codec(&file).is_ok());
}

#[test]
fn failed_codec_check_decides_the_content_type() {
    let failed = MediaError::UnsupportedVideoCodec("h265".into());
    let err = Media::content_type_for_file("clip.mp4", Some(Err(failed))).unwrap_err();
    assert!(matches!(&err, MediaError::UnsupportedVideoCodec(c) if c == "h265"));
    assert_eq!(
        Media::content_type_for_file("clip.MP4", Some(Ok(()))).unwrap(),
        ("video/mp4", CompressionMode::Generic)
    );
    assert_eq!(
        Media::content_type_for_file("clip.mp4", None).unwrap(),
        ("video/mp4", CompressionMode::Generic)
    );
    assert_eq!(
        Media::content_type_for_file("pepe.jpg", Some(Err(MediaError::NoExtension))).unwrap(),
        ("image/jpeg", CompressionMode::Generic)
    );
}

#[test]
fn image_content_types_give_their_rendering() {
    assert_eq!(Media::from_str("image/avif").unwrap(), Media::Image(ImageRendering::Auto));
    assert_eq!(Media::from_str("image/jxl").unwrap(), Media::Image(ImageRendering::Auto));
    for t in ["apng", "gif", "jpeg", "png", "webp"] {
        assert_eq!(
            Media::from_str(&format!("image/{t}")).unwrap(),
            Media::Image(ImageRendering::Pixelated)
        );
    }
    assert!(Media::from_str("IMAGE/PNG").is_err());
}
