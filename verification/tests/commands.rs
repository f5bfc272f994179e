use hyperthree_native::commands::{
    collect_surface_texture_ids, decode_bundle_command, decode_encoder_command,
    decode_pass_command, sorted_unique, CommandError, CommandRecorder, EncoderCommand,
    PassCommand, RecordedCommand, RenderCommand, TextureCopy,
};
use serde_json::Value;
use std::collections::HashMap;

fn json(text: &str) -> Value {
    serde_json::from_str(text).unwrap()
}

#[test]
fn encoder_commands_decode_with_defaults() {
    match decode_encoder_command("clearBuffer", &json("[5]")).unwrap() {
        EncoderCommand::ClearBuffer { buffer, offset, size } => {
            assert_eq!((buffer, offset, size), (5, 0, None));
        }
        other => panic!("unexpected {other:?}"),
    }
    match decode_encoder_command(
        "copyTextureToTexture",
        &json(r#"[{"texture":1,"origin":[4]},{"texture":2,"mipLevel":3},[8,9]]"#),
    )
    .unwrap()
    {
        EncoderCommand::CopyTextureToTexture { source, destination, size } => {
            assert_eq!(source, TextureCopy { texture: 1, mip_level: 0, origin: [4, 0, 0] });
            assert_eq!(destination, TextureCopy { texture: 2, mip_level: 3, origin: [0, 0, 0] });
            assert_eq!(size, [8, 9, 1]);
        }
        other => panic!("unexpected {other:?}"),
    }
    match decode_encoder_command(
        "copyBufferToTexture",
        &json(r#"[{"buffer":4,"bytesPerRow":256},{"texture":2},[16,8]]"#),
    )
    .unwrap()
    {
        EncoderCommand::CopyBufferToTexture { source, bytes_per_row, rows_per_image, .. } => {
            assert_eq!((source, bytes_per_row, rows_per_image), (4, 256, 8));
        }
        other => panic!("unexpected {other:?}"),
    }
}

#[test]
fn encoder_command_refusals_follow_the_argument_order() {
    assert_eq!(
        decode_encoder_command("fly", &json("{}")).unwrap_err(),
        CommandError::Unsupported
    );
    assert_eq!(
        decode_encoder_command("clearBuffer", &json("{}")).unwrap_err(),
        CommandError::PayloadNotArray
    );
    assert_eq!(
        decode_encoder_command("copyBufferToBuffer", &json("[1, 0]")).unwrap_err(),
        CommandError::NotInteger(2)
    );
    assert_eq!(
        decode_encoder_command("copyBufferToTexture", &json(r#"[{"bytesPerRow":4},{"texture":1},[1]]"#))
            .unwrap_err(),
        CommandError::NoBufferHandle
    );
    assert_eq!(
        decode_encoder_command("copyTextureToBuffer", &json(r#"[{"texture":1},{"buffer":1,"bytesPerRow":4},{}]"#))
            .unwrap_err(),
        CommandError::CopySizeNotArray
    );
}

#[test]
fn pass_and_bundle_commands_decode() {
    match decode_pass_command("draw", &json("[3]")).unwrap() {
        PassCommand::Render(RenderCommand::Draw { vertex_count, instance_count, .. }) => {
            assert_eq!((vertex_count, instance_count), (3, 1));
        }
        other => panic!("unexpected {other:?}"),
    }
    assert_eq!(
        decode_pass_command("setBindGroup", &json("[0, 1]")).unwrap_err(),
        CommandError::OffsetsNotArray
    );
    assert_eq!(
        decode_pass_command("setViewport", &json("[0, 0, 1, \"a\"]")).unwrap_err(),
        CommandError::NotNumber(3)
    );
    assert_eq!(decode_pass_command("draw", &json("{}")).unwrap_err(), CommandError::PayloadNotArray);
    match decode_bundle_command("setBindGroup", &json("[0, 1]")).unwrap() {
        RenderCommand::SetBindGroup { dynamic_offsets, .. } => assert!(dynamic_offsets.is_empty()),
        other => panic!("unexpected {other:?}"),
    }
    assert_eq!(
        decode_bundle_command("drawIndirect", &json("[1]")).unwrap_err(),
        CommandError::IndirectInBundle
    );
    match decode_pass_command("setIndexBuffer", &json("[2]")).unwrap() {
        PassCommand::Render(RenderCommand::SetIndexBuffer { format, .. }) => assert_eq!(format, "uint32"),
        other => panic!("unexpected {other:?}"),
    }
}

#[test]
fn passes_record_into_their_encoder_when_they_end() {
    let mut recorder = CommandRecorder::new();
    let encoder = recorder.create_command_encoder().unwrap();
    assert_eq!(encoder, 1);
    let pipeline = recorder.register_render_pipeline().unwrap();
    let pass = recorder
        .begin_render_pass(encoder, &json(r#"{"colorAttachments":[{"view":7,"loadOp":"clear"}]}"#), false)
        .unwrap();
    recorder
        .record_pass_command(pass, "setPipeline", &json(&format!("[{pipeline}]")))
        .unwrap();
    recorder.record_pass_command(pass, "draw", &json("[3]")).unwrap();
    assert_eq!(
        recorder.record_pass_command(pass, "dispatchWorkgroups", &json("[1]")),
        Err(CommandError::NotComputePass(pass))
    );
    assert_eq!(
        recorder.finish_command_encoder(encoder).unwrap_err(),
        CommandError::EncoderHasOpenPass
    );
    recorder.end_pass(pass).unwrap();
    assert_eq!(recorder.end_pass(pass), Err(CommandError::UnknownPass(pass)));
    recorder
        .record_encoder_command(encoder, "writeTimestamp", &json("[9, 0]"))
        .unwrap();
    let commands = recorder.finish_command_encoder(encoder).unwrap();
    assert_eq!(commands.len(), 2);
    match &commands[0] {
        RecordedCommand::RenderPass(state) => {
            assert_eq!(state.colors[0].view, 7);
            assert_eq!(state.colors[0].load_op, "clear");
            assert_eq!(state.colors[0].store_op, "store");
            assert_eq!(state.commands.len(), 2);
        }
        other => panic!("unexpected {other:?}"),
    }
    assert_eq!(
        recorder.finish_command_encoder(encoder).unwrap_err(),
        CommandError::UnknownEncoder(encoder)
    );
}

#[test]
fn passes_need_a_known_encoder_and_supported_timestamps() {
    let mut recorder = CommandRecorder::new();
    assert_eq!(
        recorder.begin_compute_pass(99, &json("{}"), true),
        Err(CommandError::UnknownEncoder(99))
    );
    let encoder = recorder.create_command_encoder().unwrap();
    assert_eq!(encoder, 2);
    assert_eq!(
        recorder.begin_compute_pass(encoder, &json(r#"{"timestampWrites":{"querySet":1}}"#), false),
        Err(CommandError::TimestampsUnsupported)
    );
    assert_eq!(
        recorder.begin_render_pass(encoder, &json("{}"), true),
        Err(CommandError::AttachmentsNotArray)
    );
    let pass = recorder.begin_compute_pass(encoder, &json("{}"), false).unwrap();
    assert_eq!(
        recorder.record_pass_command(pass, "setPipeline", &json("[42]")),
        Err(CommandError::UnknownPipeline(42))
    );
    recorder
        .record_pass_command(pass, "setBindGroup", &json("[0, 5, [256]]"))
        .unwrap();
}

#[test]
fn render_bundles_record_their_commands() {
    let mut recorder = CommandRecorder::new();
    let bundle = recorder
        .create_render_bundle_encoder(&json(r#"{"colorFormats":["bgra8unorm", null],"sampleCount":4}"#))
        .unwrap();
    recorder.record_bundle_command(bundle, "draw", &json("[6, 2]")).unwrap();
    assert_eq!(
        recorder.record_bundle_command(bundle + 1, "draw", &json("[6]")),
        Err(CommandError::UnknownBundleEncoder(bundle + 1))
    );
    let state = recorder.finish_render_bundle_encoder(bundle).unwrap();
    assert_eq!(state.color_formats, vec![Some("bgra8unorm".to_string()), None]);
    assert_eq!(state.sample_count, 4);
    assert_eq!(state.commands.len(), 1);
    assert_eq!(
        recorder.create_render_bundle_encoder(&json(r#"{"colorFormats":[1]}"#)),
        Err(CommandError::ColorFormatNotString)
    );
    assert_eq!(
        recorder.create_render_bundle_encoder(&json(r#"{"colorFormats":[],"sampleCount":0}"#)),
        Err(CommandError::ZeroSampleCount)
    );
}

#[test]
fn submitted_surface_textures_are_listed_once() {
    let mut recorder = CommandRecorder::new();
    let encoder = recorder.create_command_encoder().unwrap();
    let pass = recorder
        .begin_render_pass(
            encoder,
            &json(r#"{"colorAttachments":[{"view":10,"resolveTarget":11},{"view":12}],"depthStencilAttachment":{"view":13}}"#),
            false,
        )
        .unwrap();
    recorder.end_pass(pass).unwrap();
    let commands = recorder.finish_command_encoder(encoder).unwrap();
    let sources: HashMap<u64, u64> = [(10, 100), (11, 101), (12, 100), (13, 103)].into_iter().collect();
    let surfaces: HashMap<u64, ()> = [(100, ()), (103, ())].into_iter().collect();
    assert_eq!(collect_surface_texture_ids(&commands, &sources, &surfaces), vec![100, 103]);
    assert_eq!(sorted_unique(&vec![5, 3, 5, 1, 3]), vec![1, 3, 5]);
    assert_eq!(sorted_unique(&Vec::new()), Vec::<u64>::new());
}
