use sglib::atlas::Atlas;
use sglib::atlas::Pixel;
use sglib::part::ArmVariant;
use sglib::part::BodyPart;
use sglib::pipeline::assemble;
use sglib::pipeline::render_part;
use sglib::pipeline::PipelineOutput;
use sglib::remap::remap;
use sglib::upload::RetryPolicy;
use sglib::upload::ServiceReply;
use sglib::upload::TextureHandle;
use sglib::upload::UploadAction;
use sglib::upload::UploadEvent;
use sglib::upload::UploadResult;
use sglib::upload::UploadSession;

fn handle(tag: &str) -> UploadResult {
    UploadResult::Handle(TextureHandle { signature: format!("sig-{}", tag), value: format!("val-{}", tag) })
}

fn pair_of(tag: &str) -> (String, String) {
    (format!("sig-{}", tag), format!("val-{}", tag))
}

fn transparent(width: u32, height: u32) -> Atlas {
    let clear = Pixel { r: 0, g: 0, b: 0, a: 0 };
    Atlas::from_pixels(width, height, vec![clear; (width * height) as usize]).unwrap()
}

/// A service that takes every upload at once: the signature tells the name
/// of the request, the value the image.
fn upload_to_a_service_that_always_succeeds(png: &[u8], variant: ArmVariant) -> (UploadResult, u32) {
    let session = UploadSession::new(RetryPolicy::standard(), variant);
    let (session, action) = session.step(UploadEvent::Begin, 0);
    let request = match action {
        UploadAction::Send(request) => request,
        other => panic!("{:?}", other),
    };
    let (session, action) = session.step(UploadEvent::ResponseReceived, 1);
    assert!(matches!(action, UploadAction::Parse));
    let reply = ServiceReply {
        signature: Some(format!("signed:{}", request.name)),
        value: Some(png.iter().map(|b| format!("{:02x}", b)).collect()),
    };
    let (session, action) = session.step(UploadEvent::Parsed(reply), 2);
    match action {
        UploadAction::Finish(result) => (result, session.attempts),
        other => panic!("{:?}", other),
    }
}

#[test]
fn workers_that_finish_in_reverse_order() {
    let outcomes = vec![
        (BodyPart::Torso, handle("5")),
        (BodyPart::RightLeg, handle("4")),
        (BodyPart::LeftLeg, handle("3")),
        (BodyPart::RightArm, handle("2")),
        (BodyPart::LeftArm, handle("1")),
    ];
    let pairs = assemble(outcomes).into_pairs();
    assert_eq!(pairs, vec![pair_of("1"), pair_of("2"), pair_of("3"), pair_of("4"), pair_of("5")]);
}

#[test]
fn workers_that_finish_in_any_order() {
    let orders: [[usize; 5]; 4] = [[1, 2, 3, 4, 5], [3, 1, 5, 2, 4], [2, 5, 1, 4, 3], [5, 4, 3, 2, 1]];
    for order in orders {
        let outcomes = order
            .iter()
            .map(|id| (BodyPart::from_id(*id).unwrap(), handle(&id.to_string())))
            .collect();
        let pairs = assemble(outcomes).into_pairs();
        assert_eq!(pairs, vec![pair_of("1"), pair_of("2"), pair_of("3"), pair_of("4"), pair_of("5")]);
    }
}

#[test]
fn a_failure_fills_its_own_slot_only() {
    let outcomes = vec![
        (BodyPart::LeftLeg, UploadResult::Failed),
        (BodyPart::Torso, handle("5")),
        (BodyPart::LeftArm, handle("1")),
        (BodyPart::RightLeg, handle("4")),
        (BodyPart::RightArm, handle("2")),
    ];
    let out = assemble(outcomes);
    assert!(matches!(out.get(BodyPart::LeftLeg), UploadResult::Failed));
    assert!(matches!(out.get(BodyPart::Torso), UploadResult::Handle(_)));
    let empty = (String::new(), String::new());
    assert_eq!(out.into_pairs(), vec![pair_of("1"), pair_of("2"), empty, pair_of("4"), pair_of("5")]);
}

#[test]
fn a_part_without_outcome_has_failed() {
    let out = assemble(vec![(BodyPart::RightArm, handle("2"))]);
    for part in [BodyPart::LeftArm, BodyPart::LeftLeg, BodyPart::RightLeg, BodyPart::Torso] {
        assert!(matches!(out.get(part), UploadResult::Failed));
    }
    match out.get(BodyPart::RightArm) {
        UploadResult::Handle(h) => assert_eq!(h.signature, "sig-2"),
        UploadResult::Failed => panic!("the right arm has an outcome"),
    }
    let none = assemble(Vec::new()).into_pairs();
    assert_eq!(none, vec![(String::new(), String::new()); 5]);
}

#[test]
fn the_first_outcome_of_a_part_stands() {
    let out = assemble(vec![
        (BodyPart::Torso, handle("first")),
        (BodyPart::Torso, handle("second")),
        (BodyPart::Torso, UploadResult::Failed),
    ]);
    assert_eq!(out.into_pairs()[4], pair_of("first"));
}

#[test]
fn output_is_read_and_written_by_part() {
    let out = PipelineOutput::failed();
    assert_eq!(out.into_pairs(), vec![(String::new(), String::new()); 5]);
    let out = PipelineOutput::failed().with(BodyPart::LeftLeg, handle("3")).with(BodyPart::LeftArm, handle("1"));
    assert!(matches!(out.get(BodyPart::LeftArm), UploadResult::Handle(_)));
    assert!(matches!(out.get(BodyPart::RightArm), UploadResult::Failed));
    assert!(matches!(out.left_leg, UploadResult::Handle(_)));
    let pairs = out.into_pairs();
    assert_eq!(pairs[0], pair_of("1"));
    assert_eq!(pairs[2], pair_of("3"));
    assert_eq!(pairs[1], (String::new(), String::new()));
}

#[test]
fn render_part_is_the_png_of_the_remapped_atlas() {
    let source = transparent(64, 64);
    for part in BodyPart::all() {
        for variant in [ArmVariant::Classic, ArmVariant::Slim] {
            let png = render_part(&source, part, variant).unwrap();
            let want = remap(transparent(64, 64), part, variant);
            assert_eq!(png, want.encode_png().unwrap());
            let back = Atlas::decode(&png).unwrap();
            assert_eq!(back.pixels(), want.pixels());
            assert_eq!(back.get_pixel(0, 0), Pixel { r: part.id(), g: 0, b: 0, a: 255 });
        }
    }
    // The source is left as it was.
    assert_eq!(source.get_pixel(0, 0), Pixel { r: 0, g: 0, b: 0, a: 0 });
}

#[test]
fn five_parts_of_a_transparent_atlas_end_to_end() {
    let source = transparent(64, 64);
    // The workers hand in their outcomes in an order of their own.
    let mut outcomes = Vec::new();
    for part in [BodyPart::LeftLeg, BodyPart::Torso, BodyPart::LeftArm, BodyPart::RightLeg, BodyPart::RightArm] {
        let png = render_part(&source, part, ArmVariant::Classic).unwrap();
        let (result, requests) = upload_to_a_service_that_always_succeeds(&png, ArmVariant::Classic);
        assert_eq!(requests, 1);
        outcomes.push((part, result));
    }
    let pairs = assemble(outcomes).into_pairs();
    assert_eq!(pairs.len(), 5);
    for (signature, value) in &pairs {
        assert!(!signature.is_empty());
        assert!(!value.is_empty());
    }
    for i in 0..5 {
        for j in i + 1..5 {
            assert_ne!(pairs[i], pairs[j]);
            assert_ne!(pairs[i].1, pairs[j].1);
        }
    }
    // Each slot holds the image of its own part.
    for part in BodyPart::all() {
        let png = render_part(&source, part, ArmVariant::Classic).unwrap();
        let hex: String = png.iter().map(|b| format!("{:02x}", b)).collect();
        assert_eq!(pairs[part.index()].1, hex);
    }
}
