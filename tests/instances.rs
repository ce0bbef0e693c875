use basalt::instance::{InstanceSet, INSTANCE_RECORD_BYTES};
use basalt::layout::{instance_layout, model_vertex_layout, stream_layout, VertexAttribute, INSTANCE_WORDS};

fn record(tag: u32) -> [u32; INSTANCE_WORDS] {
    let mut r = [0u32; INSTANCE_WORDS];
    for (j, w) in r.iter_mut().enumerate() {
        *w = tag * 100 + j as u32;
    }
    r
}

#[test]
fn nineteen_instances_upload_in_order() {
    let mut set = InstanceSet::new();
    for i in 0..19 {
        set.push(record(i));
    }
    assert_eq!(set.len(), 19);
    let words = set.packed_words();
    assert_eq!(words.len(), 19 * INSTANCE_WORDS);
    for i in 0..19usize {
        assert_eq!(&words[i * INSTANCE_WORDS..(i + 1) * INSTANCE_WORDS], &record(i as u32)[..]);
    }
    let bytes = set.upload();
    assert_eq!(bytes.len(), 19 * INSTANCE_RECORD_BYTES);
    assert_eq!(bytes.len(), 1444);
}

#[test]
fn upload_clears_the_stale_mark() {
    let mut set = InstanceSet::new();
    assert!(!set.needs_upload());
    set.push(record(7));
    assert!(set.needs_upload());
    set.upload();
    assert!(!set.needs_upload());
    set.push(record(8));
    assert!(set.needs_upload());
    assert_eq!(set.record(1), record(8));
}

#[test]
fn empty_set_uploads_nothing() {
    let mut set = InstanceSet::new();
    assert!(set.upload().is_empty());
}

#[test]
fn model_vertex_stream_layout() {
    let l = model_vertex_layout();
    assert_eq!(l.stride, 32);
    assert!(!l.per_instance);
    assert_eq!(
        l.attributes,
        vec![
            VertexAttribute { offset: 0, location: 0, components: 3 },
            VertexAttribute { offset: 12, location: 1, components: 2 },
            VertexAttribute { offset: 20, location: 2, components: 3 },
        ]
    );
}

#[test]
fn instance_stream_layout() {
    let l = instance_layout();
    assert_eq!(l.stride, 76);
    assert!(l.per_instance);
    let offsets: Vec<u64> = l.attributes.iter().map(|a| a.offset).collect();
    let locations: Vec<u32> = l.attributes.iter().map(|a| a.location).collect();
    assert_eq!(offsets, vec![0, 16, 32, 48, 64]);
    assert_eq!(locations, vec![5, 6, 7, 8, 9]);
}

#[test]
fn custom_stream_layout() {
    let l = stream_layout(&vec![1, 4, 2], 3, true);
    assert_eq!(l.stride, 28);
    assert_eq!(l.attributes[2], VertexAttribute { offset: 20, location: 5, components: 2 });
    assert!(stream_layout(&vec![], 0, false).attributes.is_empty());
}
