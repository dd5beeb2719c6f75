use std::cell::RefCell;
use std::rc::Rc;

use tensor_types::array::RawArray;
use tensor_types::error::TensorTypeError;
use tensor_types::explicit::{ParamTensorType, ParamTypedArray};
use tensor_types::kind::ElementKind;
use tensor_types::parameter::ParameterValue;

// An array for the tests: a shape, a kind, and elements behind a shared handle.
struct TestArray {
    dims: Vec<i64>,
    kind: ElementKind,
    data: Rc<RefCell<Vec<f64>>>,
}

impl TestArray {
    fn filled(dims: &[i64], kind: ElementKind, value: f64) -> Self {
        let n: i64 = dims.iter().product();
        TestArray {
            dims: dims.to_vec(),
            kind,
            data: Rc::new(RefCell::new(vec![value; n as usize])),
        }
    }

    fn from_slice(values: &[f64], kind: ElementKind) -> Self {
        TestArray {
            dims: vec![values.len() as i64],
            kind,
            data: Rc::new(RefCell::new(values.to_vec())),
        }
    }

    fn reshape(&self, dims: &[i64]) -> Self {
        TestArray {
            dims: dims.to_vec(),
            kind: self.kind,
            data: Rc::new(RefCell::new(self.data.borrow().clone())),
        }
    }

    fn to_kind(&self, kind: ElementKind) -> Self {
        TestArray {
            dims: self.dims.clone(),
            kind,
            data: Rc::new(RefCell::new(self.data.borrow().clone())),
        }
    }

    fn fill(&self, value: f64) -> Self {
        TestArray::filled(&self.dims, self.kind, value)
    }

    fn transpose(&self, a: usize, b: usize) -> Self {
        let mut dims = self.dims.clone();
        dims.swap(a, b);
        TestArray {
            dims,
            kind: self.kind,
            data: Rc::new(RefCell::new(self.data.borrow().clone())),
        }
    }

    fn elements(&self) -> Vec<f64> {
        self.data.borrow().clone()
    }

    fn put(&mut self, i: usize, value: f64) {
        self.data.borrow_mut()[i] = value;
    }
}

impl RawArray for TestArray {
    fn size(&self) -> Vec<i64> {
        self.dims.clone()
    }

    fn element_kind(&self) -> ElementKind {
        self.kind
    }

    fn shallow_clone(&self) -> Self {
        TestArray {
            dims: self.dims.clone(),
            kind: self.kind,
            data: Rc::clone(&self.data),
        }
    }
}

#[derive(Debug, PartialEq, PartialOrd, Hash)]
struct Brand1;
#[derive(Debug, PartialEq, PartialOrd, Hash)]
struct Brand2;
#[derive(Debug, PartialEq, PartialOrd, Hash)]
struct Brand3;

type MyParam1 = ParameterValue<Brand1>;
type MyParam2 = ParameterValue<Brand2>;
type MyParam3 = ParameterValue<Brand3>;

struct Params {
    my_param1: MyParam1,
    my_param2: MyParam2,
    my_param3: MyParam3,
}

impl Params {
    fn record(&self) -> [i64; 3] {
        [
            self.my_param1.into(),
            self.my_param2.into(),
            self.my_param3.into(),
        ]
    }
}

fn setup() -> Params {
    Params {
        my_param1: MyParam1::new(1),
        my_param2: MyParam2::new(2),
        my_param3: MyParam3::new(3),
    }
}

fn my_tensor() -> ParamTensorType<3> {
    ParamTensorType::declare("MyTensor", &[0, 1, 2], ElementKind::Float).unwrap()
}

#[test]
fn test_basic() {
    let params = setup().record();
    let ty = my_tensor();

    let t = TestArray::filled(&[1, 2, 3], ElementKind::Float, 0.5);
    let my_tensor = ParamTypedArray::new(&ty, t, &params).unwrap();

    let t2 = TestArray::filled(&[1, 2, 3], ElementKind::Float, 0.25);
    assert!(ParamTypedArray::new(&ty, t2, &params).is_ok());

    assert_eq!(my_tensor.tensor().size(), &[1, 2, 3]);

    // A second wrapper type, with repeated dimensions.
    let ty2 =
        ParamTensorType::<3>::declare("MyTensor2", &[0, 1, 0, 1], ElementKind::Int64).unwrap();
    let t2 = TestArray::from_slice(&[1.0, 2.0, 3.0, 4.0], ElementKind::Int)
        .reshape(&[1, 2, 1, 2])
        .to_kind(ElementKind::Int64);
    let my_tensor2 = ParamTypedArray::new(&ty2, t2, &params).unwrap();
    assert_eq!(my_tensor2.tensor().size(), &[1, 2, 1, 2]);
}

#[test]
fn test_wrong_size() {
    let params = setup().record();
    let ty = my_tensor();

    let t = TestArray::filled(&[1, 2], ElementKind::Float, 0.5);
    match ParamTypedArray::new(&ty, t, &params) {
        Err(TensorTypeError::ShapeMismatch { name, expected, found }) => {
            if name != "MyTensor" || expected != vec![1, 2, 3] || found != vec![1, 2] {
                panic!(
                    "expected ShapeMismatch, but unexpected name ({}), found ({:?}) or expected ({:?})",
                    name, found, expected
                )
            }
        }
        _ => panic!("expected ShapeMismatch"),
    };

    let t = TestArray::filled(&[1, 2, 1], ElementKind::Float, 0.5);
    match ParamTypedArray::new(&ty, t, &params) {
        Err(TensorTypeError::ShapeMismatch { name, expected, found }) => {
            if name != "MyTensor" || expected != vec![1, 2, 3] || found != vec![1, 2, 1] {
                panic!(
                    "expected ShapeMismatch, but unexpected name ({}), found ({:?}) or expected ({:?})",
                    name, found, expected
                )
            }
        }
        _ => panic!("expected ShapeMismatch"),
    };
}

#[test]
fn test_wrong_kind() {
    let params = setup().record();
    let ty = my_tensor();

    let t = TestArray::from_slice(&[1.0, 2.0, 3.0, 4.0, 5.0, 6.0], ElementKind::Int)
        .reshape(&[1, 2, 3])
        .to_kind(ElementKind::Int64);
    match ParamTypedArray::new(&ty, t, &params) {
        Err(TensorTypeError::KindMismatch { name, expected, found }) => {
            if name != "MyTensor"
                || expected != ElementKind::Float
                || found != ElementKind::Int64
            {
                panic!(
                    "expected ShapeMismatch, but unexpected name ({}), found ({:?}) or expected ({:?})",
                    name, found, expected
                )
            }
        }
        _ => panic!("expected KindMismatch"),
    };
}

#[test]
fn test_accessors() {
    let params = setup().record();
    let ty = my_tensor();
    let t = TestArray::filled(&[1, 2, 3], ElementKind::Float, 0.5);
    let my_tensor = ParamTypedArray::new(&ty, t, &params).unwrap();

    assert_eq!(my_tensor.tensor().size(), &[1, 2, 3]);
    assert_eq!(my_tensor.tensor().element_kind(), ElementKind::Float);

    let unwrapped_tensor: TestArray = my_tensor.into_inner();
    assert_eq!(unwrapped_tensor.size(), &[1, 2, 3]);
    assert_eq!(unwrapped_tensor.elements(), vec![0.5; 6]);
}

#[test]
fn test_clone() {
    let params = setup().record();
    let ty2 = ParamTensorType::<3>::declare("MyTensor2", &[1, 2], ElementKind::Int).unwrap();
    let tensor =
        TestArray::from_slice(&[0.0, 1.0, 2.0, 3.0, 4.0, 5.0], ElementKind::Int).reshape(&[2, 3]);
    let my_tensor2 = ParamTypedArray::new(&ty2, tensor, &params).unwrap();
    let cloned_wrapper = my_tensor2.clone(&params).unwrap();

    assert_eq!(cloned_wrapper.tensor().size(), vec![2, 3]);
}

#[test]
fn test_apply_fn() {
    let params = setup().record();
    let ty = my_tensor();
    let t = TestArray::filled(&[1, 2, 3], ElementKind::Float, 0.5);
    let my_tensor = ParamTypedArray::new(&ty, t, &params).unwrap();

    let new_my_tensor = my_tensor.apply_fn(|t| t.fill(1.0), &params).unwrap();
    assert_eq!(new_my_tensor.tensor().size(), &[1, 2, 3]);
    let tensor_of_ones = TestArray::filled(&[1, 2, 3], ElementKind::Float, 1.0);
    assert_eq!(new_my_tensor.tensor().elements(), tensor_of_ones.elements());
    // The wrapped array itself is as it was.
    assert_eq!(my_tensor.tensor().elements(), vec![0.5; 6]);

    match my_tensor.apply_fn(|t| t.transpose(1, 2), &params) {
        Err(TensorTypeError::ShapeMismatch { name, expected, found }) => {
            if name != "MyTensor" || expected != vec![1, 2, 3] || found != vec![1, 3, 2] {
                panic!(
                    "expected ShapeMismatch, but unexpected name ({}), found ({:?}) or expected ({:?})",
                    name, found, expected
                )
            }
        }
        _ => panic!("expected ShapeMismatch"),
    };
}

fn attention<'a, A: RawArray>(
    query: &ParamTypedArray<'a, A, 4>,
    params: &[i64; 4],
) -> Result<ParamTypedArray<'a, A, 4>, TensorTypeError> {
    query.apply_fn(|t| t.shallow_clone(), params)
}

#[test]
fn test_trait_bounds() {
    let batch_seq_d_model =
        ParamTensorType::<4>::declare("BatchSeqDModelTensor", &[0, 1, 2], ElementKind::Float)
            .unwrap();
    let batch_seq_d_reduced =
        ParamTensorType::<4>::declare("BatchSeqDReducedTensor", &[0, 1, 3], ElementKind::Float)
            .unwrap();
    let params: [i64; 4] = [1, 2, 3, 4];

    let t = TestArray::filled(&[1, 2, 3], ElementKind::Float, 0.5);
    let query = ParamTypedArray::new(&batch_seq_d_model, t, &params).unwrap();
    let _ = attention(&query, &params).unwrap();

    let t = TestArray::filled(&[1, 2, 4], ElementKind::Float, 0.5);
    let query = ParamTypedArray::new(&batch_seq_d_reduced, t, &params).unwrap();
    let _ = attention(&query, &params).unwrap();
}

#[test]
fn declaration_refuses_a_field_outside_the_record() {
    assert!(ParamTensorType::<3>::declare("T", &[0, 3], ElementKind::Float).is_none());
    assert!(ParamTensorType::<0>::declare("T", &[0], ElementKind::Float).is_none());
    assert!(ParamTensorType::<0>::declare("T", &[], ElementKind::Float).is_some());
    let ty = ParamTensorType::<3>::declare("T", &[2, 2, 0], ElementKind::Half).unwrap();
    assert_eq!(ty.fields(), &[2, 2, 0]);
    assert_eq!(ty.name(), "T");
    assert_eq!(ty.kind(), ElementKind::Half);
}

#[test]
fn expected_shape_reads_fields_in_declared_order() {
    let ty = ParamTensorType::<3>::declare("T", &[2, 0, 2, 1], ElementKind::Float).unwrap();
    assert_eq!(ty.expected_shape(&[10, 20, 30]), vec![30, 10, 30, 20]);
    let none = ParamTensorType::<3>::declare("T", &[], ElementKind::Float).unwrap();
    assert_eq!(none.expected_shape(&[10, 20, 30]), Vec::<i64>::new());
}

#[test]
fn other_params_give_another_expected_shape() {
    let ty = my_tensor();
    let t = TestArray::filled(&[1, 2, 3], ElementKind::Float, 0.5);
    let wrapped = ParamTypedArray::new(&ty, t, &[1, 2, 3]).unwrap();
    match wrapped.clone(&[1, 2, 4]) {
        Err(TensorTypeError::ShapeMismatch { name, expected, found }) => {
            assert_eq!(name, "MyTensor");
            assert_eq!(expected, vec![1, 2, 4]);
            assert_eq!(found, vec![1, 2, 3]);
        }
        _ => panic!("expected ShapeMismatch"),
    }
}

#[test]
fn clone_shares_the_storage() {
    let params = setup().record();
    let ty = my_tensor();
    let t = TestArray::filled(&[1, 2, 3], ElementKind::Float, 0.5);
    let first = ParamTypedArray::new(&ty, t, &params).unwrap();
    let mut copy = first.clone(&params).unwrap();
    copy.tensor_mut().put(4, 9.0);
    assert_eq!(first.tensor().elements(), vec![0.5, 0.5, 0.5, 0.5, 9.0, 0.5]);
    assert_eq!(copy.tensor().elements(), vec![0.5, 0.5, 0.5, 0.5, 9.0, 0.5]);
}

#[test]
fn tensor_mut_changes_the_wrapped_array() {
    let params = setup().record();
    let ty = my_tensor();
    let t = TestArray::filled(&[1, 2, 3], ElementKind::Float, 0.5);
    let mut wrapped = ParamTypedArray::new(&ty, t, &params).unwrap();
    *wrapped.tensor_mut() = TestArray::filled(&[1, 2, 3], ElementKind::Float, 2.0);
    assert_eq!(wrapped.into_inner().elements(), vec![2.0; 6]);
}
