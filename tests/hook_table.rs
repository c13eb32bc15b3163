use egui_hook::hook::{HookBinding, HookError, HookTable};

fn install(table: &mut HookTable, resolved: Option<usize>, replacement: usize, patched: Option<usize>) -> Result<HookBinding, HookError> {
    let target = table.check_install(resolved)?;
    table.commit_install(target, replacement, patched)
}

#[test]
fn new_table_routes_to_target() {
    let table = HookTable::new();
    assert_eq!(table.route(0x1000), 0x1000);
    assert_eq!(table.binding_for(0x1000), None);
}

#[test]
fn unresolved_target_is_reported() {
    let table = HookTable::new();
    assert_eq!(table.check_install(None), Err(HookError::ResolutionFailed));
}

#[test]
fn free_target_is_admitted() {
    let table = HookTable::new();
    assert_eq!(table.check_install(Some(0x1000)), Ok(0x1000));
}

#[test]
fn failed_patch_leaves_table_unhooked() {
    let mut table = HookTable::new();
    assert_eq!(install(&mut table, Some(0x1000), 0x2000, None), Err(HookError::PatchFailed));
    assert_eq!(table.binding_for(0x1000), None);
    assert_eq!(table.route(0x1000), 0x1000);
}

#[test]
fn install_then_install_again_is_already_bound() {
    let mut table = HookTable::new();
    let a = install(&mut table, Some(0x1000), 0x2000, Some(0x3000)).unwrap();
    assert_eq!(a, HookBinding { target: 0x1000, replacement: 0x2000, trampoline: 0x3000 });
    assert_eq!(table.check_install(Some(0x1000)), Err(HookError::AlreadyBound));
    assert_eq!(install(&mut table, Some(0x1000), 0x4000, Some(0x5000)), Err(HookError::AlreadyBound));
    assert_eq!(table.commit_install(0x1000, 0x4000, Some(0x5000)), Err(HookError::AlreadyBound));
    assert_eq!(table.binding_for(0x1000), Some(a));
    assert_eq!(table.route(0x1000), 0x2000);
}

#[test]
fn other_targets_are_independent() {
    let mut table = HookTable::new();
    install(&mut table, Some(0x1000), 0x2000, Some(0x3000)).unwrap();
    let b = install(&mut table, Some(0x1100), 0x2100, Some(0x3100)).unwrap();
    assert_eq!(b.target, 0x1100);
    assert_eq!(table.route(0x1000), 0x2000);
    assert_eq!(table.route(0x1100), 0x2100);
    assert_eq!(table.route(0x1200), 0x1200);
}

#[test]
fn uninstall_restores_original_route() {
    let mut table = HookTable::new();
    let a = install(&mut table, Some(0x1000), 0x2000, Some(0x3000)).unwrap();
    assert_eq!(table.route(0x1000), 0x2000);
    assert_eq!(table.uninstall(&a), Ok(()));
    assert_eq!(table.route(0x1000), 0x1000);
    assert_eq!(table.binding_for(0x1000), None);
    assert_eq!(table.uninstall(&a), Err(HookError::NotBound));
}

#[test]
fn uninstall_of_foreign_binding_is_not_bound() {
    let mut table = HookTable::new();
    let a = install(&mut table, Some(0x1000), 0x2000, Some(0x3000)).unwrap();
    let other = HookBinding { target: 0x1000, replacement: 0x9999, trampoline: 0x3000 };
    assert_eq!(table.uninstall(&other), Err(HookError::NotBound));
    assert_eq!(table.binding_for(0x1000), Some(a));
}

#[test]
fn reinstall_after_uninstall_succeeds() {
    let mut table = HookTable::new();
    let a = install(&mut table, Some(0x1000), 0x2000, Some(0x3000)).unwrap();
    table.uninstall(&a).unwrap();
    let b = install(&mut table, Some(0x1000), 0x2200, Some(0x3300)).unwrap();
    assert_eq!(table.route(0x1000), 0x2200);
    assert_eq!(b.trampoline, 0x3300);
}
