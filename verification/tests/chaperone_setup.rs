use ovr_overlay::chaperone_setup::ChaperoneCall;
use ovr_overlay::{Context, SessionFlag};

fn session() -> Context {
    let mut flag = SessionFlag::new();
    Context::init(&mut flag, 0).ok().unwrap()
}

#[test]
fn an_export_starts_without_a_buffer() {
    let session = session();
    let manager = session.chaperone_setup_mngr();
    assert_eq!(
        manager.export_live_to_buffer(),
        ChaperoneCall::ExportLiveToBuffer { capacity: 0 }
    );
}

#[test]
fn an_export_goes_on_with_the_length_reported() {
    let session = session();
    let manager = session.chaperone_setup_mngr();
    assert_eq!(
        manager.finish_export_probe(true, 120),
        Some(ChaperoneCall::ExportLiveToBuffer { capacity: 120 })
    );
    assert_eq!(manager.finish_export_probe(true, 0), None);
    assert_eq!(manager.finish_export_probe(false, 120), None);
    assert_eq!(manager.finish_export_probe(false, 0), None);
}

#[test]
fn an_export_is_the_buffer_where_it_is_terminated() {
    let session = session();
    let manager = session.chaperone_setup_mngr();
    let text = manager.finish_export(true, b"{\"universes\":[]}\0".to_vec()).unwrap();
    assert_eq!(text.as_bytes(), b"{\"universes\":[]}");
    assert!(manager.finish_export(false, b"{}\0".to_vec()).is_none());
    assert!(manager.finish_export(true, b"{}".to_vec()).is_none());
    assert!(manager.finish_export(true, b"{}\0\0".to_vec()).is_none());
    assert!(manager.finish_export(true, Vec::new()).is_none());
}

#[test]
fn an_export_runs_against_a_runtime() {
    let session = session();
    let manager = session.chaperone_setup_mngr();
    let stored = b"{\"jsonid\":\"chaperone_info\"}";
    let perform = |call: ChaperoneCall| match call {
        ChaperoneCall::ExportLiveToBuffer { capacity } => {
            let mut buffer = vec![0u8; capacity as usize];
            if capacity as usize > stored.len() {
                buffer[..stored.len()].copy_from_slice(stored);
            }
            (true, stored.len() as u32 + 1, buffer)
        }
    };
    let (succeeded, len, _) = perform(manager.export_live_to_buffer());
    let next = manager.finish_export_probe(succeeded, len).unwrap();
    let (succeeded, _, buffer) = perform(next);
    let text = manager.finish_export(succeeded, buffer).unwrap();
    assert_eq!(text.as_bytes(), stored);
}
