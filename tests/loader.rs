use std::io::Cursor;

use vent_engine::error::LoadError;
use vent_engine::material::{
    decode_texture, load_material, write_sets, BoundResource, DescriptorKind, MaterialDesc,
    ShaderStage, TextureDesc, TextureImage, TextureSource, LIGHT_UNIFORM_SIZE,
    MATERIAL_UNIFORM_SIZE, PLACEHOLDER_SIZE,
};
use vent_engine::mesh::{assemble_vertices, load_primitive, PrimitiveDesc};
use vent_engine::model::{Document, GLTFLoader, MeshDesc, Node, Scene};
use vent_engine::sampler::{
    convert_sampler, AddressMode, Filter, MagFilter, MinFilter, MipmapMode, SamplerDesc,
    WrappingMode,
};

const ONE: u32 = 0x3f80_0000;

fn white_material() -> MaterialDesc {
    MaterialDesc { base_color: [ONE, ONE, ONE, ONE], base_color_texture: None }
}

fn triangle() -> PrimitiveDesc {
    PrimitiveDesc {
        positions: Some(vec![[1, 2, 3], [4, 5, 6], [7, 8, 9]]),
        normals: None,
        tex_coords: None,
        indices: Some(vec![0, 1, 2]),
        material: white_material(),
    }
}

fn png_bytes(width: u32, height: u32) -> Vec<u8> {
    let img = image::RgbaImage::from_pixel(width, height, image::Rgba([10, 20, 30, 255]));
    let mut out = Cursor::new(Vec::new());
    img.write_to(&mut out, image::ImageFormat::Png).unwrap();
    out.into_inner()
}

fn default_sampler_desc() -> SamplerDesc {
    SamplerDesc {
        mag_filter: None,
        min_filter: None,
        wrap_s: WrappingMode::Repeat,
        wrap_t: WrappingMode::Repeat,
    }
}

#[test]
fn two_scenes_one_two_primitive_mesh() {
    let mesh = MeshDesc { name: Some("pair".to_string()), primitives: vec![triangle(), triangle()] };
    let node = Node { mesh: Some(mesh), children: vec![] };
    let doc = Document {
        scenes: vec![Scene { nodes: vec![node] }, Scene { nodes: vec![] }],
        buffers: vec![],
    };
    let model = GLTFLoader::load(&doc, 3).unwrap();
    assert_eq!(model.meshes.len(), 2);
    assert_eq!(model.meshes[0].name.as_deref(), Some("pair"));
    assert_eq!(model.meshes[1].name.as_deref(), Some("pair"));
}

#[test]
fn nested_nodes_count_every_primitive() {
    let leaf = Node {
        mesh: Some(MeshDesc { name: None, primitives: vec![triangle()] }),
        children: vec![],
    };
    let middle = Node { mesh: None, children: vec![leaf] };
    let root = Node {
        mesh: Some(MeshDesc { name: None, primitives: vec![triangle(), triangle()] }),
        children: vec![middle],
    };
    let other_root = Node {
        mesh: Some(MeshDesc { name: None, primitives: vec![triangle()] }),
        children: vec![],
    };
    let doc = Document { scenes: vec![Scene { nodes: vec![root, other_root] }], buffers: vec![] };
    let model = GLTFLoader::load(&doc, 2).unwrap();
    assert_eq!(model.meshes.len(), 4);
}

#[test]
fn empty_document_gives_empty_model() {
    let doc = Document { scenes: vec![], buffers: vec![] };
    assert_eq!(GLTFLoader::load(&doc, 3).unwrap().meshes.len(), 0);
}

#[test]
fn failing_primitive_fails_whole_model() {
    let mut broken = triangle();
    broken.indices = None;
    let node = Node {
        mesh: Some(MeshDesc { name: None, primitives: vec![triangle(), broken] }),
        children: vec![],
    };
    let doc = Document { scenes: vec![Scene { nodes: vec![node] }], buffers: vec![] };
    assert_eq!(GLTFLoader::load(&doc, 3).err(), Some(LoadError::MissingAttribute));
}

#[test]
fn positions_only_give_zero_normals_and_tex_coords() {
    let mesh = load_primitive(&triangle(), &None, &vec![], 3).unwrap();
    assert_eq!(mesh.vertices.len(), 3);
    for (i, v) in mesh.vertices.iter().enumerate() {
        let base = 3 * i as u32;
        assert_eq!(v.position, [base + 1, base + 2, base + 3]);
        assert_eq!(v.normal, [0, 0, 0]);
        assert_eq!(v.tex_coord, [0, 0]);
    }
    assert_eq!(mesh.indices, vec![0, 1, 2]);
}

#[test]
fn normals_and_tex_coords_laid_over_by_index() {
    let positions = vec![[1, 1, 1], [2, 2, 2]];
    let normals = Some(vec![[9, 9, 9]]);
    let tex = Some(vec![[5, 6], [7, 8], [100, 100]]);
    let v = assemble_vertices(&positions, &normals, &tex);
    assert_eq!(v.len(), 2);
    assert_eq!(v[0].normal, [9, 9, 9]);
    assert_eq!(v[1].normal, [0, 0, 0]);
    assert_eq!(v[0].tex_coord, [5, 6]);
    assert_eq!(v[1].tex_coord, [7, 8]);
}

#[test]
fn missing_positions_fail() {
    let mut p = triangle();
    p.positions = None;
    assert_eq!(load_primitive(&p, &None, &vec![], 3).err(), Some(LoadError::MissingAttribute));
}

#[test]
fn missing_indices_fail() {
    let mut p = triangle();
    p.indices = None;
    assert_eq!(load_primitive(&p, &None, &vec![], 3).err(), Some(LoadError::MissingAttribute));
}

#[test]
fn untextured_material_gets_white_placeholder() {
    let b = load_material(&white_material(), &vec![], 3).unwrap();
    match b.texture.image {
        TextureImage::Solid { rgba, width, height } => {
            assert_eq!(rgba, [255, 255, 255, 255]);
            assert_eq!(width, 128);
            assert_eq!(height, 128);
            assert_eq!(PLACEHOLDER_SIZE, 128);
        }
        TextureImage::Decoded(_) => panic!("expected the placeholder"),
    }
}

#[test]
fn one_uniform_buffer_per_frame() {
    let b = load_material(&white_material(), &vec![], 3).unwrap();
    assert_eq!(b.uniform_buffers.len(), 3);
    for u in &b.uniform_buffers {
        assert_eq!(u.size, MATERIAL_UNIFORM_SIZE);
        assert_eq!(u.contents.base_color, [ONE, ONE, ONE, ONE]);
    }
    assert_eq!(b.writes.len(), 12);
}

#[test]
fn descriptor_writes_target_their_own_frame() {
    let w = write_sets(2);
    assert_eq!(w.len(), 8);
    for frame in 0..2usize {
        let set = &w[4 * frame..4 * frame + 4];
        assert!(set.iter().all(|x| x.set == frame));
        assert_eq!(set[0].binding, 0);
        assert_eq!(set[0].stage, ShaderStage::Vertex);
        assert_eq!(set[0].resource, BoundResource::MaterialUniform(frame));
        assert_eq!(set[1].kind, DescriptorKind::CombinedImageSampler);
        assert_eq!(set[1].resource, BoundResource::DiffuseTexture);
        assert_eq!(set[2].binding, 1);
        assert_eq!(set[2].stage, ShaderStage::Fragment);
        assert_eq!(set[3].binding, 2);
        assert_eq!(set[3].resource, BoundResource::LightUniform(frame));
        assert_eq!(set[3].range, LIGHT_UNIFORM_SIZE);
    }
}

#[test]
fn zero_frames_give_no_buffers() {
    let b = load_material(&white_material(), &vec![], 0).unwrap();
    assert_eq!(b.uniform_buffers.len(), 0);
    assert_eq!(b.writes.len(), 0);
}

#[test]
fn embedded_png_decodes_from_its_span() {
    let png = png_bytes(2, 3);
    let mut buffer = vec![7u8; 5];
    buffer.extend_from_slice(&png);
    buffer.extend_from_slice(&[1, 2, 3]);
    let src = TextureSource::Embedded {
        buffer: 0,
        offset: 5,
        length: png.len(),
        mime: "image/png".to_string(),
    };
    let img = decode_texture(&src, &vec![buffer]).unwrap();
    assert_eq!((img.width, img.height), (2, 3));
    assert_eq!(img.pixels.len(), 24);
    assert_eq!(&img.pixels[0..4], &[10, 20, 30, 255]);
}

#[test]
fn file_without_mime_is_sniffed() {
    let src = TextureSource::File { bytes: png_bytes(4, 1), declared_mime: None };
    let img = decode_texture(&src, &vec![]).unwrap();
    assert_eq!((img.width, img.height), (4, 1));
}

#[test]
fn unknown_content_is_unsupported() {
    let src = TextureSource::File { bytes: vec![0, 1, 2, 3], declared_mime: None };
    assert_eq!(decode_texture(&src, &vec![]).err(), Some(LoadError::UnsupportedFormat));
}

#[test]
fn unknown_mime_is_unsupported() {
    let src = TextureSource::File {
        bytes: png_bytes(1, 1),
        declared_mime: Some("text/plain".to_string()),
    };
    assert_eq!(decode_texture(&src, &vec![]).err(), Some(LoadError::UnsupportedFormat));
}

#[test]
fn bad_bytes_fail_to_decode() {
    let src = TextureSource::File {
        bytes: vec![0, 1, 2, 3],
        declared_mime: Some("image/png".to_string()),
    };
    assert_eq!(decode_texture(&src, &vec![]).err(), Some(LoadError::Decode));
}

#[test]
fn span_outside_buffer_is_a_parse_error() {
    let src = TextureSource::Embedded {
        buffer: 0,
        offset: 2,
        length: 10,
        mime: "image/png".to_string(),
    };
    assert_eq!(decode_texture(&src, &vec![vec![0u8; 8]]).err(), Some(LoadError::Parse));
    let missing = TextureSource::Embedded {
        buffer: 1,
        offset: 0,
        length: 0,
        mime: "image/png".to_string(),
    };
    assert_eq!(decode_texture(&missing, &vec![vec![0u8; 8]]).err(), Some(LoadError::Parse));
}

#[test]
fn textured_material_uses_decoded_image_and_sampler() {
    let desc = MaterialDesc {
        base_color: [ONE, 0, 0, ONE],
        base_color_texture: Some(TextureDesc {
            source: TextureSource::File { bytes: png_bytes(3, 3), declared_mime: None },
            sampler: SamplerDesc {
                mag_filter: Some(MagFilter::Nearest),
                min_filter: None,
                wrap_s: WrappingMode::ClampToEdge,
                wrap_t: WrappingMode::MirroredRepeat,
            },
        }),
    };
    let b = load_material(&desc, &vec![], 2).unwrap();
    match &b.texture.image {
        TextureImage::Decoded(img) => assert_eq!((img.width, img.height), (3, 3)),
        TextureImage::Solid { .. } => panic!("expected the decoded image"),
    }
    assert_eq!(b.texture.sampler.mag_filter, Filter::Nearest);
    assert_eq!(b.texture.sampler.address_mode_u, AddressMode::ClampToEdge);
    assert_eq!(b.texture.sampler.address_mode_v, AddressMode::MirroredRepeat);
    assert_eq!(b.material.base_color, [ONE, 0, 0, ONE]);
}

#[test]
fn sampler_table() {
    let d = convert_sampler(&default_sampler_desc());
    assert_eq!(d.mag_filter, Filter::Linear);
    assert_eq!(d.min_filter, Filter::Linear);
    assert_eq!(d.mipmap_mode, MipmapMode::Linear);
    let s = convert_sampler(&SamplerDesc {
        mag_filter: Some(MagFilter::Linear),
        min_filter: Some(MinFilter::NearestMipmapNearest),
        wrap_s: WrappingMode::MirroredRepeat,
        wrap_t: WrappingMode::ClampToEdge,
    });
    assert_eq!(s.min_filter, Filter::Nearest);
    assert_eq!(s.mipmap_mode, MipmapMode::Nearest);
    assert_eq!(s.address_mode_u, AddressMode::MirroredRepeat);
    let t = convert_sampler(&SamplerDesc {
        min_filter: Some(MinFilter::LinearMipmapNearest),
        ..default_sampler_desc()
    });
    assert_eq!((t.min_filter, t.mipmap_mode), (Filter::Linear, MipmapMode::Nearest));
}
