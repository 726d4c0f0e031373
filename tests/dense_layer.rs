use nn_layers::dense::Dense;
use nn_layers::error::LayerError;
use nn_layers::matrix::Matrix;
use rand::Rng;

fn xavier_limit(input_size: usize, output_size: usize) -> f32 {
    (6.0 / (input_size + output_size) as f32).sqrt()
}

fn xavier_samples(input_size: usize, output_size: usize) -> Vec<f32> {
    let limit = xavier_limit(input_size, output_size);
    let mut rng = rand::thread_rng();
    let mut samples = Vec::new();
    for _ in 0..input_size * output_size {
        samples.push(rng.gen_range(-limit..limit));
    }
    samples
}

fn layer(input_size: usize, output_size: usize) -> Dense<f32> {
    Dense::new(input_size, output_size, xavier_samples(input_size, output_size), 0.0).unwrap()
}

#[test]
fn test_initialization() {
    let dense_layer = layer(4, 3);
    assert_eq!(dense_layer.input_size(), 4);
    assert_eq!(dense_layer.output_size(), 3);
    assert_eq!(dense_layer.weights().shape(), (4, 3));
    assert_eq!(dense_layer.biases().len(), 3);

    let limit = xavier_limit(dense_layer.input_size(), dense_layer.output_size());
    for w in dense_layer.weights().as_vec().iter() {
        assert!(*w >= -limit && *w <= limit);
    }
    for b in dense_layer.biases().iter() {
        assert_eq!(*b, 0.0);
    }
}

#[test]
fn test_forward_shape() {
    let mut dense_layer = layer(4, 3);
    let input = Matrix::filled(2, 4, 0.0f32);
    let output_shape = dense_layer.record_input(&input).unwrap();
    assert_eq!(output_shape, (2, 3));
    assert!(dense_layer.input_cache().is_some());
}

#[test]
fn test_backward_shape() {
    let mut dense_layer = layer(4, 3);
    let input = Matrix::filled(2, 4, 0.0f32);
    dense_layer.record_input(&input).unwrap();
    let grad_output = Matrix::filled(2, 3, 1.0f32);
    let cached = dense_layer.backward_input(&grad_output).unwrap();
    assert_eq!(cached.shape(), (2, 4));
    // grad_weights = cachedᵗ · grad_output, grad_biases = column sums of grad_output
    let mut grad_weights = vec![0.0f32; 12];
    for i in 0..4 {
        for j in 0..3 {
            for b in 0..2 {
                grad_weights[i * 3 + j] += cached.get(b, i) * grad_output.get(b, j);
            }
        }
    }
    let grad_weights = Matrix::from_vec(4, 3, grad_weights).unwrap();
    let grad_biases = vec![2.0f32, 2.0, 2.0];
    dense_layer.record_gradients(grad_weights, grad_biases).unwrap();
    assert!(dense_layer.grad_weights_cache().is_some());
    assert!(dense_layer.grad_biases_cache().is_some());
    assert!(dense_layer.grad_weights_cache().as_ref().unwrap().shape() == (4, 3));
    assert!(dense_layer.grad_biases_cache().unwrap().len() == 3);
}

#[test]
fn new_refuses_zero_sizes() {
    assert_eq!(Dense::<f32>::new(0, 3, Vec::new(), 0.0).err(), Some(LayerError::InvalidConstruction));
    assert_eq!(Dense::<f32>::new(2, 0, Vec::new(), 0.0).err(), Some(LayerError::InvalidConstruction));
}

#[test]
fn new_refuses_wrong_sample_count() {
    assert_eq!(Dense::<f32>::new(2, 3, vec![0.0; 5], 0.0).err(), Some(LayerError::ShapeMismatch));
}

#[test]
fn new_lays_out_samples_row_after_row() {
    let d = Dense::new(2, 3, vec![1, 2, 3, 4, 5, 6], 0).unwrap();
    assert_eq!(d.weights().get(0, 2), 3);
    assert_eq!(d.weights().get(1, 0), 4);
    assert_eq!(d.biases(), &vec![0, 0, 0]);
    assert!(d.input_cache().is_none());
    assert!(d.grad_weights_cache().is_none());
    assert!(d.grad_biases_cache().is_none());
}

#[test]
fn forward_caches_a_copy_of_the_input() {
    let mut d = Dense::new(2, 2, vec![1, 2, 3, 4], 0).unwrap();
    let input = Matrix::from_vec(1, 2, vec![7, 8]).unwrap();
    assert_eq!(d.record_input(&input), Ok((1, 2)));
    assert_eq!(d.input_cache().as_ref().unwrap().as_vec(), &vec![7, 8]);
    let second = Matrix::from_vec(3, 2, vec![1, 1, 2, 2, 3, 3]).unwrap();
    assert_eq!(d.record_input(&second), Ok((3, 2)));
    assert_eq!(d.input_cache().as_ref().unwrap().shape(), (3, 2));
}

#[test]
fn forward_refuses_wrong_width_or_empty_batch() {
    let mut d = Dense::new(2, 2, vec![1, 2, 3, 4], 0).unwrap();
    assert_eq!(d.record_input(&Matrix::filled(1, 3, 0)), Err(LayerError::ShapeMismatch));
    assert_eq!(d.record_input(&Matrix::filled(0, 2, 0)), Err(LayerError::ShapeMismatch));
    assert!(d.input_cache().is_none());
}

#[test]
fn backward_before_forward_is_invalid_state() {
    let d = Dense::new(2, 2, vec![1, 2, 3, 4], 0).unwrap();
    assert_eq!(d.backward_input(&Matrix::filled(1, 2, 1)).err(), Some(LayerError::InvalidState));
    let mut d = d;
    assert_eq!(
        d.record_gradients(Matrix::filled(2, 2, 0), vec![0, 0]),
        Err(LayerError::InvalidState)
    );
}

#[test]
fn backward_refuses_mismatched_gradient() {
    let mut d = Dense::new(2, 2, vec![1, 2, 3, 4], 0).unwrap();
    d.record_input(&Matrix::filled(2, 2, 1)).unwrap();
    assert_eq!(d.backward_input(&Matrix::filled(1, 2, 1)).err(), Some(LayerError::ShapeMismatch));
    assert_eq!(d.backward_input(&Matrix::filled(2, 3, 1)).err(), Some(LayerError::ShapeMismatch));
    assert_eq!(
        d.record_gradients(Matrix::filled(2, 3, 0), vec![0, 0]),
        Err(LayerError::ShapeMismatch)
    );
    assert_eq!(
        d.record_gradients(Matrix::filled(2, 2, 0), vec![0]),
        Err(LayerError::ShapeMismatch)
    );
    assert!(d.grad_weights_cache().is_none());
}

#[test]
fn update_before_backward_is_invalid_state() {
    let mut d = Dense::new(2, 2, vec![1, 2, 3, 4], 0).unwrap();
    assert_eq!(d.update_gradients().err(), Some(LayerError::InvalidState));
    d.record_input(&Matrix::filled(1, 2, 1)).unwrap();
    assert_eq!(d.update_gradients().err(), Some(LayerError::InvalidState));
}

#[test]
fn update_gradients_stay_until_the_next_backward() {
    let mut d = Dense::new(2, 2, vec![1, 2, 3, 4], 0).unwrap();
    d.record_input(&Matrix::filled(1, 2, 1)).unwrap();
    d.record_gradients(Matrix::from_vec(2, 2, vec![1, 1, 2, 2]).unwrap(), vec![5, 6]).unwrap();
    let (gw, gb) = d.update_gradients().unwrap();
    let new_weights: Vec<i32> = d.weights().as_vec().iter().zip(gw.as_vec()).map(|(w, g)| w - g).collect();
    let new_biases: Vec<i32> = d.biases().iter().zip(gb).map(|(b, g)| b - g).collect();
    d.set_weights(Matrix::from_vec(2, 2, new_weights).unwrap()).unwrap();
    d.set_biases(new_biases).unwrap();
    assert_eq!(d.weights().as_vec(), &vec![0, 1, 1, 2]);
    assert_eq!(d.biases(), &vec![-5, -6]);
    let (gw, gb) = d.update_gradients().unwrap();
    assert_eq!(gw.as_vec(), &vec![1, 1, 2, 2]);
    assert_eq!(gb, &vec![5, 6]);
}

#[test]
fn set_parameters_refuses_wrong_shapes() {
    let mut d = Dense::new(2, 3, vec![0; 6], 0).unwrap();
    assert_eq!(d.set_weights(Matrix::filled(3, 2, 1)), Err(LayerError::ShapeMismatch));
    assert_eq!(d.set_biases(vec![1, 2]), Err(LayerError::ShapeMismatch));
    assert_eq!(d.weights().as_vec(), &vec![0; 6]);
    assert_eq!(d.set_biases(vec![1, 2, 3]), Ok(()));
    assert_eq!(d.biases(), &vec![1, 2, 3]);
}
