//! Tests of the constness option.

use utils_lib::getter::const_ty::ConstTy;

#[test]
fn const_ty() {
    assert_eq!(ConstTy::from(true), ConstTy::Constant);
    assert_eq!(ConstTy::from(false), ConstTy::NonConstant);

    assert!(bool::from(ConstTy::Constant));
    assert!(!bool::from(ConstTy::NonConstant));

    assert!(bool::from(ConstTy::from(true)));
    assert!(!bool::from(ConstTy::from(false)));

    assert_eq!(ConstTy::Constant.as_ref(), &true);
    assert_eq!(ConstTy::NonConstant.as_ref(), &false);
}
