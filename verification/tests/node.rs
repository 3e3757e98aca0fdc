use dma_node::DMANode;
use dma_node::FmtError;
use dma_node::Node;

const DATA: &[u8] = &[1, 2, 3, 4, 5, 6, 7, 8];

#[test]
fn write_read() {
    let mut node = Node::<8, u8>::new();
    let written = node.write_slice(DATA);
    assert_eq!(written, DATA.len());
    assert_eq!(node.len(), DATA.len());
    assert_eq!(node.as_slice(), DATA);
    assert_eq!(node.max_len(), 8);
}

#[test]
fn write_commit() {
    let mut node = Node::<9, u8>::new();
    node.write();
    for (i, data) in DATA.iter().enumerate() {
        node.write_at(i, *data);
    }
    node.commit(DATA.len());
    assert_eq!(node.as_slice(), DATA);
}

#[test]
fn write_with() {
    let mut node = Node::<8, u8>::new();
    let max_len = core::cmp::min(node.max_len(), DATA.len());
    node.write_with(|mut buf, len| {
        for i in 0..max_len {
            if len + i < buf.len() {
                buf[len + i] = DATA[i];
            } else {
                buf.push(DATA[i]);
            }
        }
        buf
    });
    assert_eq!(node.as_slice(), DATA);
}

#[test]
fn fmt_write() {
    let text = "olá";
    let text2 = "oi";
    let mut node = Node::<8, u8>::new();
    node.write_str(text).unwrap();
    node.write_str(text2).unwrap();
    assert_eq!(node.as_slice(), [text, text2].concat().as_bytes());
    assert!(node.write_str(text).is_err());
}

#[test]
fn write_slice_truncates_at_capacity() {
    let mut node = Node::<4, u8>::new();
    assert_eq!(node.write_slice(&[1, 2, 3]), 3);
    assert_eq!(node.len(), 3);
    assert_eq!(node.write_slice(&[9, 9, 9]), 1);
    assert_eq!(node.len(), 4);
    assert_eq!(node.as_slice(), &[1, 2, 3, 9]);
    assert_eq!(node.write_slice(&[5]), 0);
    assert_eq!(node.len(), 4);
}

#[test]
fn free_plus_len_is_max_len() {
    let mut node = Node::<6, u8>::new();
    assert_eq!(node.free() + node.len(), node.max_len());
    node.write_slice(&[1, 2, 3, 4]);
    assert_eq!(node.free() + node.len(), node.max_len());
    node.write();
    assert_eq!(node.free() + node.len(), node.max_len());
    node.commit(2);
    assert_eq!(node.free() + node.len(), node.max_len());
    node.set_len(1);
    assert_eq!(node.free() + node.len(), node.max_len());
    node.clear();
    assert_eq!(node.free() + node.len(), node.max_len());
}

#[test]
fn commit_never_grows() {
    let mut node = Node::<8, u8>::new();
    node.write_slice(&[1, 2, 3]);
    node.commit(5);
    assert_eq!(node.len(), 3);
    assert_eq!(node.as_slice(), &[1, 2, 3]);
    node.commit(3);
    assert_eq!(node.len(), 3);
    node.commit(2);
    assert_eq!(node.len(), 2);
    assert_eq!(node.as_slice(), &[1, 2]);
}

#[test]
fn write_fills_tail_with_defaults() {
    let mut node = Node::<4, u8>::new();
    node.write_slice(&[7, 7]);
    node.write();
    assert_eq!(node.len(), 4);
    assert_eq!(node.as_slice(), &[7, 7, 0, 0]);
}

#[test]
fn write_then_commit_keeps_written_prefix() {
    let mut node = Node::<8, u8>::new();
    node.write();
    for i in 0..8 {
        node.write_at(i, (10 + i) as u8);
    }
    node.commit(5);
    assert_eq!(node.len(), 5);
    assert_eq!(node.as_slice(), &[10, 11, 12, 13, 14]);
}

#[test]
fn fmt_write_reports_overflow_and_keeps_state() {
    let mut node = Node::<8, u8>::new();
    assert_eq!(node.write_str("abcdef"), Ok(()));
    assert_eq!(node.len(), 6);
    assert_eq!(node.write_str("ghij"), Err(FmtError));
    assert_eq!(node.len(), 6);
    assert_eq!(node.as_slice(), b"abcdef");
    assert_eq!(node.write_str("gh"), Ok(()));
    assert_eq!(node.as_slice(), b"abcdefgh");
}

#[test]
fn set_len_shrinks_prefix() {
    let mut node = Node::<8, u8>::new();
    node.write_slice(&[1, 2, 3, 4]);
    node.set_len(2);
    assert_eq!(node.len(), 2);
    assert_eq!(node.as_slice(), &[1, 2]);
    assert!(!node.is_empty());
    node.set_len(0);
    assert!(node.is_empty());
}

#[test]
fn clear_empties_node() {
    let mut node = Node::<8, u8>::new();
    node.write_slice(DATA);
    node.clear();
    assert!(node.is_empty());
    assert_eq!(node.len(), 0);
    assert_eq!(node.free(), 8);
    assert_eq!(node.write_slice(&[4, 5]), 2);
    assert_eq!(node.as_slice(), &[4, 5]);
}

#[test]
fn buffer_address_is_stable_across_writes() {
    let mut node = Node::<8, u8>::new();
    let before = node.buffer_address_for_dma();
    node.write_slice(DATA);
    node.commit(3);
    node.write();
    let after = node.buffer_address_for_dma();
    assert_eq!(before, after);
    assert_ne!(before, 0);
}

struct Noisy {
    hits: std::rc::Rc<std::cell::Cell<usize>>,
}

impl Default for Noisy {
    fn default() -> Self {
        Noisy {
            hits: std::rc::Rc::new(std::cell::Cell::new(0)),
        }
    }
}

impl Drop for Noisy {
    fn drop(&mut self) {
        self.hits.set(self.hits.get() + 1);
    }
}

#[test]
fn drop_runs_once_per_valid_element() {
    let hits = std::rc::Rc::new(std::cell::Cell::new(0usize));
    let node = {
        let mut node = Node::<8, Noisy>::new();
        let h = hits.clone();
        node.write_with(move |mut buf, _len| {
            for _ in 0..3 {
                buf.push(Noisy { hits: h.clone() });
            }
            buf
        });
        node
    };
    assert_eq!(node.as_slice().len(), 3);
    assert_eq!(hits.get(), 0);
    drop(node);
    assert_eq!(hits.get(), 3);
}
