use winsafe::co::{ERROR, HRESULT, ERROR_BAD_ARGUMENTS, ERROR_NO_MORE_FILES};
use winsafe::results::{
    bool_to_sysresult, more_entries_to_sysresult, ok_to_hrresult, okfalse_to_hrresult,
    ptr_to_sysresult, zero_as_err,
};

#[test]
fn zero_as_err_each_branch() {
    assert_eq!(zero_as_err(0), Err(ERROR(ERROR_BAD_ARGUMENTS)));
    assert_eq!(zero_as_err(17), Ok(17));
    assert_eq!(zero_as_err(-1), Ok(-1));
}

#[test]
fn bool_to_sysresult_each_branch() {
    assert_eq!(bool_to_sysresult(0, ERROR(5)), Err(ERROR(5)));
    assert_eq!(bool_to_sysresult(1, ERROR(5)), Ok(()));
}

#[test]
fn ptr_to_sysresult_each_branch() {
    assert_eq!(ptr_to_sysresult(0, ERROR(2)), Err(ERROR(2)));
    assert_eq!(ptr_to_sysresult(0xbeef, ERROR(2)), Ok(0xbeef));
}

#[test]
fn ok_to_hrresult_each_branch() {
    assert_eq!(ok_to_hrresult(HRESULT(0)), Ok(()));
    assert_eq!(ok_to_hrresult(HRESULT(0x80004005)), Err(HRESULT(0x80004005)));
}

#[test]
fn okfalse_to_hrresult_each_branch() {
    assert_eq!(okfalse_to_hrresult(HRESULT(0)), Ok(true));
    assert_eq!(okfalse_to_hrresult(HRESULT(1)), Ok(false));
    assert_eq!(okfalse_to_hrresult(HRESULT(0x80004001)), Err(HRESULT(0x80004001)));
}

#[test]
fn more_entries_each_branch() {
    assert_eq!(more_entries_to_sysresult(1, ERROR(0)), Ok(true));
    assert_eq!(more_entries_to_sysresult(0, ERROR(ERROR_NO_MORE_FILES)), Ok(false));
    assert_eq!(more_entries_to_sysresult(0, ERROR(6)), Err(ERROR(6)));
}

#[test]
fn last_error_packs_into_status_code() {
    assert_eq!(ERROR(1223).to_hresult(), HRESULT(0x800704C7));
    assert_eq!(ERROR(0).to_hresult(), HRESULT(0x80070000));
}
