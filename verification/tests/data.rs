use gpu_culling::cull_data::{
    build_cull_data, build_cull_words, culling_uniforms_size, truncate, GPUCullingUniforms,
};
use gpu_culling::scene::{InternalObject, MaterialManager, ObjectManager, TransparencyType};
use gpu_culling::sorting::Sorting;
use gpu_culling::spirv::{check_spirv, make_spirv, SpirvError, SPIRV_MAGIC};

fn object(material: usize, seed: u32) -> InternalObject {
    let mut transform = [0u32; 16];
    for (i, word) in transform.iter_mut().enumerate() {
        *word = seed + 100 + i as u32;
    }
    InternalObject {
        material,
        transform,
        sphere: [seed + 200, seed + 201, seed + 202, seed + 203],
        location: [seed, seed, seed],
        start_idx: seed + 1,
        count: seed + 2,
        vertex_offset: -3,
    }
}

fn matrix(first: u32) -> [u32; 16] {
    let mut words = [0u32; 16];
    for (i, word) in words.iter_mut().enumerate() {
        *word = first + i as u32;
    }
    words
}

#[test]
fn uniforms_are_padded_to_sixteen_bytes() {
    assert_eq!(culling_uniforms_size(0), 144);
    assert_eq!(culling_uniforms_size(3), 144);
    assert_eq!(culling_uniforms_size(4), 160);
    assert_eq!(culling_uniforms_size(20), 224);
}

#[test]
fn truncation_keeps_the_low_word() {
    assert_eq!(truncate(5), 5);
    assert_eq!(truncate(0xffff_ffff), 0xffff_ffff);
    assert_eq!(truncate(0x1_0000_0007), 7);
}

#[test]
fn words_have_their_places() {
    let mut materials = MaterialManager::new();
    materials.set_internal_index(40, 0x1_0000_0009);
    materials.set_internal_index(41, 8);
    let frustum: Vec<u32> = (1000..1020).collect();
    let uniforms = GPUCullingUniforms {
        view: matrix(10),
        view_proj: matrix(50),
        frustum: &frustum,
        object_count: 2,
    };
    let objects = [object(40, 0), object(41, 5000)];
    let words = build_cull_words(&uniforms, &materials, &objects);
    assert_eq!(words.len(), 56 + 2 * 24);
    assert_eq!(&words[0..16], &matrix(10));
    assert_eq!(&words[16..32], &matrix(50));
    assert_eq!(&words[32..52], &frustum[..]);
    assert_eq!(&words[52..56], &[2, 0, 0, 0]);
    assert_eq!(&words[56..60], &[1, 2, 0xffff_fffd, 9]);
    assert_eq!(&words[60..76], &objects[0].transform);
    assert_eq!(&words[76..80], &objects[0].sphere);
    assert_eq!(&words[80..84], &[5001, 5002, 0xffff_fffd, 8]);
    assert_eq!(&words[84..100], &objects[1].transform);
    assert_eq!(&words[100..104], &objects[1].sphere);
}

#[test]
fn data_is_the_memory_image_of_the_words() {
    let mut materials = MaterialManager::new();
    materials.set_internal_index(1, 3);
    let frustum = vec![7u32; 4];
    let uniforms = GPUCullingUniforms {
        view: matrix(0x0102_0304),
        view_proj: matrix(1),
        frustum: &frustum,
        object_count: 1,
    };
    let objects = [object(1, 77)];
    let words = build_cull_words(&uniforms, &materials, &objects);
    let data = build_cull_data(&uniforms, &materials, &objects);
    assert_eq!(data.len(), 160 + 96);
    let mut expected = Vec::new();
    for word in &words {
        expected.extend_from_slice(&word.to_ne_bytes());
    }
    assert_eq!(data, expected);
}

#[test]
fn data_without_objects_is_the_uniforms() {
    let materials = MaterialManager::new();
    let frustum = Vec::new();
    let uniforms = GPUCullingUniforms {
        view: matrix(0),
        view_proj: matrix(0),
        frustum: &frustum,
        object_count: 0,
    };
    assert_eq!(build_cull_data(&uniforms, &materials, &[]).len(), 144);
}

#[test]
fn materials_are_found_by_handle() {
    let mut materials = MaterialManager::new();
    assert!(!materials.contains(3));
    materials.set_internal_index(3, 12);
    materials.set_internal_index(3, 13);
    assert!(materials.contains(3));
    assert!(!materials.contains(12));
    assert_eq!(materials.get_internal_index(3), 13);
}

#[test]
fn groups_have_their_keys() {
    assert_eq!(TransparencyType::Opaque.key(), 0);
    assert_eq!(TransparencyType::Cutout.key(), 1);
    assert_eq!(TransparencyType::Blend.key(), 2);
}

#[test]
fn sorting_a_group_leaves_the_others_alone() {
    let mut objects = ObjectManager::new();
    assert!(objects.get_objects(0).is_none());
    for seed in [1u32, 2, 3] {
        objects.add(0, object(0, seed));
        objects.add(2, object(0, seed + 10));
    }
    let distances = vec![30, 10, 20];
    objects.sort_objects(0, Sorting::FrontToBack, &distances);
    objects.sort_objects(1, Sorting::FrontToBack, &Vec::new());
    assert!(objects.get_objects(1).is_none());
    assert_eq!(
        objects.get_objects(0).unwrap(),
        &vec![object(0, 2), object(0, 3), object(0, 1)]
    );
    assert_eq!(
        objects.get_objects(2).unwrap(),
        &vec![object(0, 11), object(0, 12), object(0, 13)]
    );
}

#[test]
fn shader_words_are_read_in_machine_order() {
    let mut data = Vec::new();
    for word in [SPIRV_MAGIC, 0x0001_0300, 0xdead_beef] {
        data.extend_from_slice(&u32::to_ne_bytes(word));
    }
    assert_eq!(make_spirv(&data), Ok(vec![SPIRV_MAGIC, 0x0001_0300, 0xdead_beef]));
    assert_eq!(make_spirv(&data).unwrap(), wgpu::util::make_spirv_raw(&data).into_owned());
}

#[test]
fn bytes_that_are_no_shader_are_rejected() {
    assert_eq!(make_spirv(&[]), Err(SpirvError::Empty));
    assert_eq!(make_spirv(&[3, 2, 35]), Err(SpirvError::Length(3)));
    assert_eq!(
        make_spirv(&u32::to_ne_bytes(0x1234_5678)),
        Err(SpirvError::Magic(0x1234_5678))
    );
    assert_eq!(check_spirv(Vec::new()), Err(SpirvError::Empty));
    assert_eq!(check_spirv(vec![1, SPIRV_MAGIC]), Err(SpirvError::Magic(1)));
    assert_eq!(check_spirv(vec![SPIRV_MAGIC]), Ok(vec![SPIRV_MAGIC]));
}
