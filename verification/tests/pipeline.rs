use gpu_compute::gpu::{
    allocation_outcome, device_outcome, establish, map_outcome, require_adapter, run_compute,
    GpuError,
};

const KERNEL: &str = "
@group(0) @binding(0) var input_texture: texture_2d<f32>;
@group(0) @binding(1) var output_texture: texture_storage_2d<rgba8unorm, write>;

@compute
@workgroup_size(16, 16)
fn grayscale_main(@builtin(global_invocation_id) gid: vec3<u32>) {
    let dims = textureDimensions(input_texture);
    if (gid.x >= dims.x || gid.y >= dims.y) {
        return;
    }
    let color = textureLoad(input_texture, vec2<i32>(gid.xy), 0);
    let gray = dot(color.rgb, vec3<f32>(0.299, 0.587, 0.114));
    textureStore(output_texture, vec2<i32>(gid.xy), vec4<f32>(gray, gray, gray, color.a));
}
";

#[test]
fn missing_adapter_is_adapter_unavailable() {
    assert_eq!(require_adapter::<u32>(None), Err(GpuError::AdapterUnavailable));
    assert_eq!(require_adapter(Some(7u32)), Ok(7u32));
}

#[test]
fn rejected_negotiation_is_device_request_failed() {
    assert_eq!(
        device_outcome::<u32>(Err("no queue".to_string())),
        Err(GpuError::DeviceRequestFailed("no queue".to_string()))
    );
    assert_eq!(device_outcome::<u32>(Ok(3)), Ok(3));
}

#[test]
fn exhaustion_is_allocation_failed() {
    assert_eq!(
        allocation_outcome::<u32>(Err("out of memory".to_string())),
        Err(GpuError::AllocationFailed("out of memory".to_string()))
    );
    assert_eq!(allocation_outcome::<u32>(Ok(9)), Ok(9));
}

#[test]
fn failed_map_is_map_failed() {
    assert_eq!(
        map_outcome::<Vec<u8>>(Err("device lost".to_string())),
        Err(GpuError::MapFailed("device lost".to_string()))
    );
    assert_eq!(map_outcome::<u32>(Ok(1)), Ok(1));
}

#[test]
fn establish_without_adapter_fails_before_allocation() {
    // On a host with no primary-backend adapter, negotiation must fail with
    // AdapterUnavailable; the allocator is never entered, so no texture or
    // buffer exists. On a host with an adapter the negotiation may succeed,
    // in which case nothing further is claimed here.
    match establish() {
        Err(e) => assert_eq!(e, GpuError::AdapterUnavailable),
        Ok(_) => {}
    }
}

#[test]
fn run_compute_honors_its_contract_on_either_outcome() {
    let width: u32 = 4;
    let height: u32 = 4;
    let pixels = vec![0x40u8; (width * 4 * height) as usize];
    match run_compute(KERNEL, "grayscale_main", width, height, &pixels) {
        // With a device present the output is exactly the depadded image.
        Ok(out) => assert_eq!(out.len(), 64),
        // Without one, the failure is the negotiator's, never a later stage's.
        Err(e) => assert!(matches!(
            e,
            GpuError::AdapterUnavailable | GpuError::DeviceRequestFailed(_)
        )),
    }
}
