use glamour::index_buffer::IndexBuffer;
use glamour::shader::Program;
use glamour::shader::Shader;
use glamour::shader::ShaderProgram;
use glamour::shader::ShaderType;
use glamour::texture::Texture;
use glamour::transform::VertTrans;
use glamour::vertex::Vert;
use glamour::vertex_array::BufferTarget;
use glamour::vertex_array::VertBuf;
use glamour::vertex_buffer::VertexBuffer;

#[test]
fn vert_buf_mirror_and_upload() {
    let mut buf: VertBuf<VertTrans> = VertBuf::new(5, Vec::new(), 4);
    assert_eq!(buf.id(), 5);
    assert_eq!(buf.capacity, 4);
    assert_eq!(buf.layout().stride, 100);
    assert_eq!(buf.vertices().len(), 0);

    buf.vertices_mut().push(VertTrans::default());
    buf.vertices_mut().push(VertTrans::default());
    assert_eq!(buf.vertices().len(), 2);

    let upload = buf.set_data();
    assert_eq!(upload.buffer_id, 5);
    assert_eq!(upload.target, BufferTarget::Array);
    assert_eq!(upload.byte_len, 200);
}

#[test]
fn standalone_vertex_layout() {
    let l = Vert::layout();
    assert_eq!(l.attrs.len(), 3);
    assert_eq!(l.attrs[0].offset, 0);
    assert_eq!(l.attrs[1].offset, 12);
    assert_eq!(l.attrs[2].offset, 24);
    assert_eq!(l.stride, 32);
}

#[test]
fn gpu_handles_keep_their_ids() {
    assert_eq!(ShaderProgram::from_raw(3).id(), 3);
    assert_eq!(Program::from_raw(4).id(), 4);
    assert_eq!(Shader::from_raw(5).id(), 5);
    assert_eq!(Texture::from_raw(6).id(), 6);
    assert_eq!(VertexBuffer::from_raw(7).renderer_id(), 7);
    assert_eq!(IndexBuffer::from_raw(8).renderer_id(), 8);
    assert_eq!(ShaderType::Vertex.gl_value(), 0x8B31);
    assert_eq!(ShaderType::Fragment.gl_value(), 0x8B30);
}
